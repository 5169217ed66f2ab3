use vstd::prelude::*;

use crate::git::{checkout_args, checkout_argv};
use crate::text::{join3, texts};

verus! {

/// One of the two revisions under comparison.
#[derive(Clone, Copy, Debug, PartialEq, Eq, Structural)]
pub enum Side {
    /// The merge target.
    Base,
    /// The proposed change.
    Head,
}

impl Side {
    /// Name of the side's tree in the scratch directory.
    pub open spec fn spec_name(self) -> Seq<char> {
        match self {
            Side::Base => "base"@,
            Side::Head => "head"@,
        }
    }

    pub fn name(&self) -> (r: &'static str)
        ensures
            r@ == self.spec_name(),
    {
        match self {
            Side::Base => "base",
            Side::Head => "head",
        }
    }
}

/// Where the tree of `side` lies in the scratch directory `temp_dir`.
pub open spec fn tree_dir(temp_dir: Seq<char>, side: Side) -> Seq<char> {
    temp_dir + "/"@ + side.spec_name()
}

pub fn tree_dir_of(temp_dir: &str, side: Side) -> (r: String)
    ensures
        r@ == tree_dir(temp_dir@, side),
{
    join3(temp_dir, "/", side.name())
}

/// What a preparation step does.
#[derive(Clone, Copy, Debug, PartialEq, Eq, Structural)]
pub enum PrepareAction {
    Copy,
    Checkout,
}

/// One step of preparing the two trees.
#[derive(Clone, Debug)]
pub enum PrepareStep {
    /// Copy the whole workspace, recursively, to `dest`.
    CopyTree { side: Side, dest: String },
    /// Run git with `args` to check the side's commit out in its copy.
    Checkout { side: Side, args: Vec<String> },
}

/// A failed preparation: which side, and which step of it.
#[derive(Clone, Copy, Debug, PartialEq, Eq, Structural)]
pub struct PrepareError {
    pub side: Side,
    pub action: PrepareAction,
}

impl PrepareStep {
    pub open spec fn spec_side(&self) -> Side {
        match self {
            PrepareStep::CopyTree { side, .. } => *side,
            PrepareStep::Checkout { side, .. } => *side,
        }
    }

    pub open spec fn spec_action(&self) -> PrepareAction {
        match self {
            PrepareStep::CopyTree { .. } => PrepareAction::Copy,
            PrepareStep::Checkout { .. } => PrepareAction::Checkout,
        }
    }

    /// The error that names this step, for when it fails.
    pub fn error(&self) -> (r: PrepareError)
        ensures
            r.side == self.spec_side(),
            r.action == self.spec_action(),
    {
        match self {
            PrepareStep::CopyTree { side, .. } => PrepareError {
                side: *side,
                action: PrepareAction::Copy,
            },
            PrepareStep::Checkout { side, .. } => PrepareError {
                side: *side,
                action: PrepareAction::Checkout,
            },
        }
    }
}

/// Whether `step` copies the workspace to `dest` for `side`.
pub open spec fn is_copy(step: PrepareStep, side: Side, dest: Seq<char>) -> bool {
    step matches PrepareStep::CopyTree { side: s, dest: d } && s == side && d@ == dest
}

/// Whether `step` checks `sha` out, forced and detached, in the tree `dir` of
/// `side`.
pub open spec fn is_checkout(step: PrepareStep, side: Side, dir: Seq<char>, sha: Seq<char>) -> bool {
    step matches PrepareStep::Checkout { side: s, args } && s == side && texts(args@)
        == checkout_argv(dir, sha)
}

/// Whether `steps` make the two trees under `temp_dir`: a full copy of the
/// workspace for the base side, the checkout of `base_sha` in it, then the
/// same for the head side with `head_sha`. Each checkout runs in its own copy
/// alone.
pub open spec fn is_preparation(
    steps: Seq<PrepareStep>,
    temp_dir: Seq<char>,
    base_sha: Seq<char>,
    head_sha: Seq<char>,
) -> bool {
    &&& steps.len() == 4
    &&& is_copy(steps[0], Side::Base, tree_dir(temp_dir, Side::Base))
    &&& is_checkout(steps[1], Side::Base, tree_dir(temp_dir, Side::Base), base_sha)
    &&& is_copy(steps[2], Side::Head, tree_dir(temp_dir, Side::Head))
    &&& is_checkout(steps[3], Side::Head, tree_dir(temp_dir, Side::Head), head_sha)
}

/// The steps that prepare the two trees under `temp_dir`.
pub fn prepare_directories(temp_dir: &str, base_sha: &str, head_sha: &str) -> (r: Vec<
    PrepareStep,
>)
    ensures
        is_preparation(r@, temp_dir@, base_sha@, head_sha@),
{
    let base_dir = tree_dir_of(temp_dir, Side::Base);
    let head_dir = tree_dir_of(temp_dir, Side::Head);
    let base_args = checkout_args(base_dir.as_str(), base_sha);
    let head_args = checkout_args(head_dir.as_str(), head_sha);
    let mut r: Vec<PrepareStep> = Vec::new();
    r.push(PrepareStep::CopyTree { side: Side::Base, dest: base_dir });
    r.push(PrepareStep::Checkout { side: Side::Base, args: base_args });
    r.push(PrepareStep::CopyTree { side: Side::Head, dest: head_dir });
    r.push(PrepareStep::Checkout { side: Side::Head, args: head_args });
    r
}

/// The two trees lie apart: their paths differ, and neither path is the
/// other one extended, so neither tree lies inside the other.
pub proof fn prepared_trees_are_separate(temp_dir: Seq<char>, extra: Seq<char>)
    ensures
        tree_dir(temp_dir, Side::Base) != tree_dir(temp_dir, Side::Head),
        tree_dir(temp_dir, Side::Base) != tree_dir(temp_dir, Side::Head) + extra,
        tree_dir(temp_dir, Side::Head) != tree_dir(temp_dir, Side::Base) + extra,
{
    reveal_strlit("/");
    reveal_strlit("base");
    reveal_strlit("head");
    let b = tree_dir(temp_dir, Side::Base);
    let h = tree_dir(temp_dir, Side::Head);
    let k = temp_dir.len() as int + 1;
    assert(b[k] == 'b');
    assert(h[k] == 'h');
    assert((h + extra)[k] == 'h');
    assert((b + extra)[k] == 'b');
}

} // verus!
