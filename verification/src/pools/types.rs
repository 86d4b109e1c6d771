//! Pool types: the nine stages a package passes through, in order.

use vstd::prelude::*;

verus! {

/// The nine pool types, in processing order.
#[derive(Debug, Clone, Copy, PartialEq, Eq, Structural, Hash)]
pub enum PoolType {
    PreInput,
    Input,
    PostInput,
    PreProcess,
    MidProcess,
    Process,
    PostProcess,
    Output,
    PostOutput,
}

/// The processing order of all pools.
pub open spec fn spec_processing_order() -> Seq<PoolType> {
    seq![
        PoolType::PreInput,
        PoolType::Input,
        PoolType::PostInput,
        PoolType::PreProcess,
        PoolType::MidProcess,
        PoolType::Process,
        PoolType::PostProcess,
        PoolType::Output,
        PoolType::PostOutput,
    ]
}

/// The pipeline runs nine pools in this order: pre-input, input,
/// post-input, pre-process, mid-process, process, post-process, output,
/// post-output; each pool's position is its place in that order.
pub proof fn lemma_pipeline_order()
    ensures
        spec_processing_order() =~= seq![
            PoolType::PreInput,
            PoolType::Input,
            PoolType::PostInput,
            PoolType::PreProcess,
            PoolType::MidProcess,
            PoolType::Process,
            PoolType::PostProcess,
            PoolType::Output,
            PoolType::PostOutput,
        ],
        spec_position(PoolType::PreInput) == 0,
        spec_position(PoolType::Input) == 1,
        spec_position(PoolType::PostInput) == 2,
        spec_position(PoolType::PreProcess) == 3,
        spec_position(PoolType::MidProcess) == 4,
        spec_position(PoolType::Process) == 5,
        spec_position(PoolType::PostProcess) == 6,
        spec_position(PoolType::Output) == 7,
        spec_position(PoolType::PostOutput) == 8,
{
}

/// Third-party workers may register in the input, post-input,
/// pre-process, process and output pools, and in none of the others
/// (pre-input, mid-process, post-process, post-output).
pub proof fn lemma_public_pools()
    ensures
        spec_allows_third_party(PoolType::Input),
        spec_allows_third_party(PoolType::PostInput),
        spec_allows_third_party(PoolType::PreProcess),
        spec_allows_third_party(PoolType::Process),
        spec_allows_third_party(PoolType::Output),
        !spec_allows_third_party(PoolType::PreInput),
        !spec_allows_third_party(PoolType::MidProcess),
        !spec_allows_third_party(PoolType::PostProcess),
        !spec_allows_third_party(PoolType::PostOutput),
{
}

/// Each pool has its own snake_case name: pre_input, input, post_input,
/// pre_process, mid_process, process, post_process, output, post_output;
/// no two pools share one.
pub proof fn lemma_pool_names(a: PoolType, b: PoolType)
    ensures
        spec_pool_name(PoolType::PreInput) == "pre_input"@,
        spec_pool_name(PoolType::Input) == "input"@,
        spec_pool_name(PoolType::PostInput) == "post_input"@,
        spec_pool_name(PoolType::PreProcess) == "pre_process"@,
        spec_pool_name(PoolType::MidProcess) == "mid_process"@,
        spec_pool_name(PoolType::Process) == "process"@,
        spec_pool_name(PoolType::PostProcess) == "post_process"@,
        spec_pool_name(PoolType::Output) == "output"@,
        spec_pool_name(PoolType::PostOutput) == "post_output"@,
        spec_pool_name(a) == spec_pool_name(b) ==> a == b,
{
    reveal_strlit("pre_input");
    reveal_strlit("input");
    reveal_strlit("post_input");
    reveal_strlit("pre_process");
    reveal_strlit("mid_process");
    reveal_strlit("process");
    reveal_strlit("post_process");
    reveal_strlit("output");
    reveal_strlit("post_output");
    if spec_pool_name(a) == spec_pool_name(b) && a != b {
        let x = spec_pool_name(a);
        let y = spec_pool_name(b);
        assert(x.len() == y.len());
        assert(x[0] == y[0]);
        assert(x[x.len() - 1] == y[y.len() - 1]);
        assert(x[1] == y[1]);
        assert(x[5] == y[5]);
    }
}

/// Whether third-party workers may register in a pool.
pub open spec fn spec_allows_third_party(p: PoolType) -> bool {
    p == PoolType::Input || p == PoolType::PostInput || p == PoolType::PreProcess
        || p == PoolType::Process || p == PoolType::Output
}

/// The 0-based position of a pool in processing order.
pub open spec fn spec_position(p: PoolType) -> nat {
    match p {
        PoolType::PreInput => 0,
        PoolType::Input => 1,
        PoolType::PostInput => 2,
        PoolType::PreProcess => 3,
        PoolType::MidProcess => 4,
        PoolType::Process => 5,
        PoolType::PostProcess => 6,
        PoolType::Output => 7,
        PoolType::PostOutput => 8,
    }
}

/// The snake_case name of a pool type.
pub open spec fn spec_pool_name(p: PoolType) -> Seq<char> {
    match p {
        PoolType::PreInput => "pre_input"@,
        PoolType::Input => "input"@,
        PoolType::PostInput => "post_input"@,
        PoolType::PreProcess => "pre_process"@,
        PoolType::MidProcess => "mid_process"@,
        PoolType::Process => "process"@,
        PoolType::PostProcess => "post_process"@,
        PoolType::Output => "output"@,
        PoolType::PostOutput => "post_output"@,
    }
}

impl PoolType {
    /// All pool types in processing order.
    pub fn processing_order() -> (r: Vec<Self>)
        ensures
            r@ == spec_processing_order(),
    {
        let r = vec![
            PoolType::PreInput,
            PoolType::Input,
            PoolType::PostInput,
            PoolType::PreProcess,
            PoolType::MidProcess,
            PoolType::Process,
            PoolType::PostProcess,
            PoolType::Output,
            PoolType::PostOutput,
        ];
        assert(r@ =~= spec_processing_order());
        r
    }

    /// Whether this pool accepts third-party workers.
    pub fn allows_third_party(&self) -> (r: bool)
        ensures
            r == spec_allows_third_party(*self),
    {
        match self {
            PoolType::Input | PoolType::PostInput | PoolType::PreProcess | PoolType::Process
            | PoolType::Output => true,
            _ => false,
        }
    }

    /// The pool's position in processing order (0-based).
    pub fn position(&self) -> (r: usize)
        ensures
            r == spec_position(*self),
    {
        match self {
            PoolType::PreInput => 0,
            PoolType::Input => 1,
            PoolType::PostInput => 2,
            PoolType::PreProcess => 3,
            PoolType::MidProcess => 4,
            PoolType::Process => 5,
            PoolType::PostProcess => 6,
            PoolType::Output => 7,
            PoolType::PostOutput => 8,
        }
    }

    /// The snake_case name of this pool type.
    pub fn name(&self) -> (r: &'static str)
        ensures
            r@ == spec_pool_name(*self),
    {
        match self {
            PoolType::PreInput => "pre_input",
            PoolType::Input => "input",
            PoolType::PostInput => "post_input",
            PoolType::PreProcess => "pre_process",
            PoolType::MidProcess => "mid_process",
            PoolType::Process => "process",
            PoolType::PostProcess => "post_process",
            PoolType::Output => "output",
            PoolType::PostOutput => "post_output",
        }
    }

    /// The snake_case name of this pool type, as an owned string.
    pub fn to_string(&self) -> (r: String)
        ensures
            r@ == spec_pool_name(*self),
    {
        String::from_str(self.name())
    }
}

/// The position of each pool is its index in the processing order, and the
/// processing order lists every pool exactly once.
pub proof fn lemma_position_matches_order(p: PoolType)
    ensures
        spec_position(p) < spec_processing_order().len(),
        spec_processing_order()[spec_position(p) as int] == p,
        forall|i: int|
            0 <= i < spec_processing_order().len() && spec_processing_order()[i] == p ==> i
                == spec_position(p),
{
}

} // verus!
