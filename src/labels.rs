use vstd::prelude::*;
use vstd::string::StringExecFns;

use crate::severity::ChangeTypes;

verus! {

/// The text of an optional string.
pub open spec fn opt_text(o: Option<String>) -> Option<Seq<char>> {
    match o {
        Some(s) => Some(s@),
        None => None,
    }
}

pub open spec fn opt_texts(v: Seq<Option<String>>) -> Seq<Option<Seq<char>>> {
    v.map_values(|o: Option<String>| opt_text(o))
}

fn copy_opt(o: &Option<String>) -> (r: Option<String>)
    ensures
        opt_text(r) == opt_text(*o),
{
    match o {
        Some(s) => Some(String::from_str(s.as_str())),
        None => None,
    }
}

/// The label configured for each category; a category without one gets no
/// label.
pub struct LabelConfig {
    pub patch: Option<String>,
    pub non_breaking: Option<String>,
    pub technically_breaking: Option<String>,
    pub breaking: Option<String>,
}

impl LabelConfig {
    pub open spec fn spec_label(&self, c: ChangeTypes) -> Option<Seq<char>> {
        match c {
            ChangeTypes::Patch => opt_text(self.patch),
            ChangeTypes::NonBreaking => opt_text(self.non_breaking),
            ChangeTypes::TechnicallyBreaking => opt_text(self.technically_breaking),
            ChangeTypes::Breaking => opt_text(self.breaking),
        }
    }

    /// The label configured for `c`.
    pub fn label_for(&self, c: ChangeTypes) -> (r: &Option<String>)
        ensures
            opt_text(*r) == self.spec_label(c),
    {
        match c {
            ChangeTypes::Patch => &self.patch,
            ChangeTypes::NonBreaking => &self.non_breaking,
            ChangeTypes::TechnicallyBreaking => &self.technically_breaking,
            ChangeTypes::Breaking => &self.breaking,
        }
    }

    /// The labels configured for the categories other than `c`, in order of
    /// severity, absent ones included.
    pub open spec fn spec_other_labels(&self, c: ChangeTypes) -> Seq<Option<Seq<char>>> {
        match c {
            ChangeTypes::Patch => seq![
                self.spec_label(ChangeTypes::NonBreaking),
                self.spec_label(ChangeTypes::TechnicallyBreaking),
                self.spec_label(ChangeTypes::Breaking),
            ],
            ChangeTypes::NonBreaking => seq![
                self.spec_label(ChangeTypes::Patch),
                self.spec_label(ChangeTypes::TechnicallyBreaking),
                self.spec_label(ChangeTypes::Breaking),
            ],
            ChangeTypes::TechnicallyBreaking => seq![
                self.spec_label(ChangeTypes::Patch),
                self.spec_label(ChangeTypes::NonBreaking),
                self.spec_label(ChangeTypes::Breaking),
            ],
            ChangeTypes::Breaking => seq![
                self.spec_label(ChangeTypes::Patch),
                self.spec_label(ChangeTypes::NonBreaking),
                self.spec_label(ChangeTypes::TechnicallyBreaking),
            ],
        }
    }
}

/// What one run of reconciliation does for a category: the label to set and
/// the labels of the other categories, to be removed.
pub struct ReconciliationPlan {
    pub set_label: Option<String>,
    pub remove_labels: Vec<Option<String>>,
}

/// The plan for `category`: set its label, remove those of the three other
/// categories.
pub fn plan(config: &LabelConfig, category: ChangeTypes) -> (r: ReconciliationPlan)
    ensures
        opt_text(r.set_label) == config.spec_label(category),
        opt_texts(r.remove_labels@) == config.spec_other_labels(category),
{
    let set_label = copy_opt(config.label_for(category));
    let mut remove_labels: Vec<Option<String>> = Vec::new();
    let others: [ChangeTypes; 3] = match category {
        ChangeTypes::Patch => [
            ChangeTypes::NonBreaking,
            ChangeTypes::TechnicallyBreaking,
            ChangeTypes::Breaking,
        ],
        ChangeTypes::NonBreaking => [
            ChangeTypes::Patch,
            ChangeTypes::TechnicallyBreaking,
            ChangeTypes::Breaking,
        ],
        ChangeTypes::TechnicallyBreaking => [
            ChangeTypes::Patch,
            ChangeTypes::NonBreaking,
            ChangeTypes::Breaking,
        ],
        ChangeTypes::Breaking => [
            ChangeTypes::Patch,
            ChangeTypes::NonBreaking,
            ChangeTypes::TechnicallyBreaking,
        ],
    };
    remove_labels.push(copy_opt(config.label_for(others[0])));
    remove_labels.push(copy_opt(config.label_for(others[1])));
    remove_labels.push(copy_opt(config.label_for(others[2])));
    assert(opt_texts(remove_labels@) =~= config.spec_other_labels(category));
    ReconciliationPlan { set_label, remove_labels }
}

/// What a label call does to the request's labels.
#[derive(Clone, Copy, Debug, PartialEq, Eq, Structural)]
pub enum LabelOp {
    Add,
    Remove,
}

/// One call to the label service for the review request. When it fails, the
/// call itself names the operation and the label that failed.
#[derive(Clone, Debug)]
pub struct LabelCall {
    pub op: LabelOp,
    pub label: String,
}

impl LabelCall {
    pub open spec fn view(&self) -> (LabelOp, Seq<char>) {
        (self.op, self.label@)
    }
}

pub open spec fn call_views(v: Seq<LabelCall>) -> Seq<(LabelOp, Seq<char>)> {
    v.map_values(|c: LabelCall| c.view())
}

/// The call that sets a label, if there is one to set.
pub open spec fn add_calls(set: Option<Seq<char>>) -> Seq<(LabelOp, Seq<char>)> {
    match set {
        Some(l) => seq![(LabelOp::Add, l)],
        None => seq![],
    }
}

/// The calls that remove each label that is present, in order.
pub open spec fn remove_calls(rs: Seq<Option<Seq<char>>>) -> Seq<(LabelOp, Seq<char>)>
    decreases rs.len(),
{
    if rs.len() == 0 {
        seq![]
    } else {
        remove_calls(rs.drop_last()) + match rs.last() {
            Some(l) => seq![(LabelOp::Remove, l)],
            None => seq![],
        }
    }
}

/// The calls that one run of reconciliation makes for `category`.
pub open spec fn reconcile_calls(config: LabelConfig, category: ChangeTypes) -> Seq<
    (LabelOp, Seq<char>),
> {
    add_calls(config.spec_label(category)) + remove_calls(config.spec_other_labels(category))
}

/// The calls that set `set_label` and remove every label of `remove_labels`:
/// the setting call first, then the removals in order; absent labels are
/// skipped.
pub fn set_and_remove_labels(set_label: &Option<String>, remove_labels: &Vec<Option<String>>) -> (r:
    Vec<LabelCall>)
    ensures
        call_views(r@) == add_calls(opt_text(*set_label)) + remove_calls(opt_texts(remove_labels@)),
{
    let mut r: Vec<LabelCall> = Vec::new();
    if let Some(label) = set_label {
        r.push(LabelCall { op: LabelOp::Add, label: String::from_str(label.as_str()) });
    }
    assert(call_views(r@) =~= add_calls(opt_text(*set_label)));
    let mut i: usize = 0;
    while i < remove_labels.len()
        invariant
            i <= remove_labels@.len(),
            call_views(r@) == add_calls(opt_text(*set_label)) + remove_calls(
                opt_texts(remove_labels@.subrange(0, i as int)),
            ),
        decreases remove_labels@.len() - i,
    {
        let ghost before = r@;
        let ghost done = opt_texts(remove_labels@.subrange(0, i as int + 1));
        proof {
            assert(done.drop_last() =~= opt_texts(remove_labels@.subrange(0, i as int)));
            assert(done.last() == opt_text(remove_labels@[i as int]));
        }
        if let Some(label) = &remove_labels[i] {
            r.push(LabelCall { op: LabelOp::Remove, label: String::from_str(label.as_str()) });
            assert(call_views(r@) =~= call_views(before).push((LabelOp::Remove, label@)));
        } else {
            assert(call_views(r@) =~= call_views(before));
        }
        assert(call_views(r@) =~= add_calls(opt_text(*set_label)) + remove_calls(done));
        i = i + 1;
    }
    assert(remove_labels@.subrange(0, i as int) =~= remove_labels@);
    r
}

/// The label calls of one run: none where the change has no review request,
/// else those of the plan for `category`.
pub fn reconcile(config: &LabelConfig, category: ChangeTypes, request: Option<u64>) -> (r: Vec<
    LabelCall,
>)
    ensures
        request is None ==> r@.len() == 0,
        request is Some ==> call_views(r@) == reconcile_calls(*config, category),
{
    match request {
        None => Vec::new(),
        Some(_) => {
            let p = plan(config, category);
            set_and_remove_labels(&p.set_label, &p.remove_labels)
        },
    }
}

/// The request's labels after one call.
pub open spec fn apply_call(labels: Set<Seq<char>>, c: (LabelOp, Seq<char>)) -> Set<Seq<char>> {
    match c.0 {
        LabelOp::Add => labels.insert(c.1),
        LabelOp::Remove => labels.remove(c.1),
    }
}

/// The request's labels after the calls, in order. Adding a label that is
/// there and removing one that is not both leave the labels as they are.
pub open spec fn apply_calls(labels: Set<Seq<char>>, cs: Seq<(LabelOp, Seq<char>)>) -> Set<
    Seq<char>,
>
    decreases cs.len(),
{
    if cs.len() == 0 {
        labels
    } else {
        apply_call(apply_calls(labels, cs.drop_last()), cs.last())
    }
}

/// The labels that the calls remove.
pub open spec fn removed(rs: Seq<Option<Seq<char>>>) -> Set<Seq<char>> {
    Set::new(|l: Seq<char>| exists|i: int| 0 <= i < rs.len() && rs[i] == Some(l))
}

proof fn apply_concat(labels: Set<Seq<char>>, a: Seq<(LabelOp, Seq<char>)>, b: Seq<(LabelOp, Seq<char>)>)
    ensures
        apply_calls(labels, a + b) == apply_calls(apply_calls(labels, a), b),
    decreases b.len(),
{
    if b.len() == 0 {
        assert(a + b =~= a);
    } else {
        assert((a + b).drop_last() =~= a + b.drop_last());
        apply_concat(labels, a, b.drop_last());
    }
}

proof fn apply_removals(labels: Set<Seq<char>>, rs: Seq<Option<Seq<char>>>)
    ensures
        apply_calls(labels, remove_calls(rs)) == labels.difference(removed(rs)),
    decreases rs.len(),
{
    if rs.len() == 0 {
        assert(labels.difference(removed(rs)) =~= labels);
    } else {
        let front = rs.drop_last();
        apply_removals(labels, front);
        let tail = match rs.last() {
            Some(l) => seq![(LabelOp::Remove, l)],
            None => seq![],
        };
        apply_concat(labels, remove_calls(front), tail);
        let mid = labels.difference(removed(front));
        if tail.len() == 1 {
            assert(tail.drop_last() =~= seq![]);
            assert(apply_calls(mid, tail.drop_last()) == mid);
            assert(apply_calls(mid, tail) == apply_call(mid, tail[0]));
        } else {
            assert(tail =~= seq![]);
        }
        assert forall|l: Seq<char>| removed(rs).contains(l) <==> (removed(front).contains(l) || rs.last()
            == Some(l)) by {
            if removed(rs).contains(l) {
                let i = choose|i: int| 0 <= i < rs.len() && rs[i] == Some(l);
                if i < rs.len() - 1 {
                    assert(front[i] == Some(l));
                }
            }
            if removed(front).contains(l) {
                let i = choose|i: int| 0 <= i < front.len() && front[i] == Some(l);
                assert(rs[i] == Some(l));
            }
        }
        assert(apply_calls(mid, tail) =~= labels.difference(removed(rs)));
    }
}

/// A label is among those of the other categories exactly when some other
/// category has it.
proof fn other_labels_are_removed(config: LabelConfig, category: ChangeTypes, l: Seq<char>)
    ensures
        removed(config.spec_other_labels(category)).contains(l) <==> exists|d: ChangeTypes|
            d != category && config.spec_label(d) == Some(l),
{
    let rs = config.spec_other_labels(category);
    {
        if exists|d: ChangeTypes| d != category && config.spec_label(d) == Some(l) {
            let d = choose|d: ChangeTypes| d != category && config.spec_label(d) == Some(l);
            match category {
                ChangeTypes::Patch => {
                    assert(rs[d.spec_rank() - 1] == Some(l));
                },
                ChangeTypes::Breaking => {
                    assert(rs[d.spec_rank() as int] == Some(l));
                },
                ChangeTypes::NonBreaking => {
                    if d == ChangeTypes::Patch {
                        assert(rs[0] == Some(l));
                    } else {
                        assert(rs[d.spec_rank() - 1] == Some(l));
                    }
                },
                ChangeTypes::TechnicallyBreaking => {
                    if d == ChangeTypes::Breaking {
                        assert(rs[2] == Some(l));
                    } else {
                        assert(rs[d.spec_rank() as int] == Some(l));
                    }
                },
            }
        }
        if removed(rs).contains(l) {
            let i = choose|i: int| 0 <= i < rs.len() && rs[i] == Some(l);
            assert(i == 0 || i == 1 || i == 2);
        }
    }
}

/// Each removal call removes a present label of the list, and each such
/// label has its call.
proof fn remove_calls_hold_removed(rs: Seq<Option<Seq<char>>>)
    ensures
        forall|i: int| 0 <= i < remove_calls(rs).len() ==> (#[trigger] remove_calls(rs)[i]).0
            == LabelOp::Remove && removed(rs).contains(remove_calls(rs)[i].1),
        forall|l: Seq<char>| removed(rs).contains(l) ==> exists|j: int| 0 <= j < remove_calls(rs).len()
            && remove_calls(rs)[j] == (LabelOp::Remove, l),
    decreases rs.len(),
{
    if rs.len() > 0 {
        let front = rs.drop_last();
        remove_calls_hold_removed(front);
        let tail = match rs.last() {
            Some(l) => seq![(LabelOp::Remove, l)],
            None => seq![],
        };
        let all = remove_calls(rs);
        assert(all == remove_calls(front) + tail);
        assert forall|i: int| 0 <= i < all.len() implies (#[trigger] all[i]).0 == LabelOp::Remove
            && removed(rs).contains(all[i].1) by {
            if i < remove_calls(front).len() {
                let l = all[i].1;
                assert(remove_calls(front)[i] == all[i]);
                let k = choose|k: int| 0 <= k < front.len() && front[k] == Some(l);
                assert(rs[k] == Some(l));
            } else {
                assert(rs[rs.len() - 1] == Some(all[i].1));
            }
        }
        assert forall|l: Seq<char>| removed(rs).contains(l) implies exists|j: int| 0 <= j < all.len()
            && all[j] == (LabelOp::Remove, l) by {
            let k = choose|k: int| 0 <= k < rs.len() && rs[k] == Some(l);
            if k < rs.len() - 1 {
                assert(front[k] == Some(l));
                assert(removed(front).contains(l));
                let j = choose|j: int| 0 <= j < remove_calls(front).len() && remove_calls(front)[j] == (
                    LabelOp::Remove,
                    l,
                );
                assert(all[j] == (LabelOp::Remove, l));
            } else {
                assert(all[all.len() - 1] == (LabelOp::Remove, l));
            }
        }
    }
}

/// The request's labels after one run of reconciliation, from any labels it
/// had: the label of `category`, when one is configured, is there; each label
/// configured for another category is gone; every other label is as it was.
pub proof fn reconciliation_result(config: LabelConfig, category: ChangeTypes, labels: Set<Seq<char>>, l: Seq<char>)
    ensures
        apply_calls(labels, reconcile_calls(config, category)).contains(l) <==> ((labels.contains(l)
            || config.spec_label(category) == Some(l)) && !(exists|d: ChangeTypes|
            d != category && config.spec_label(d) == Some(l))),
{
    let rs = config.spec_other_labels(category);
    let a = add_calls(config.spec_label(category));
    apply_concat(labels, a, remove_calls(rs));
    apply_removals(apply_calls(labels, a), rs);
    if a.len() == 1 {
        assert(a.drop_last() =~= seq![]);
        assert(apply_calls(labels, a.drop_last()) == labels);
        assert(apply_calls(labels, a) == labels.insert(config.spec_label(category).unwrap()));
    } else {
        assert(a =~= seq![]);
        assert(apply_calls(labels, a) == labels);
    }
    other_labels_are_removed(config, category, l);
}

/// The plan of a run sets the label configured for its category, when there
/// is one, and removes exactly the labels configured for the three other
/// categories; absent entries are skipped on both sides.
pub proof fn reconciliation_plan_labels(config: LabelConfig, category: ChangeTypes, l: Seq<char>)
    ensures
        reconcile_calls(config, category).contains((LabelOp::Add, l)) <==> config.spec_label(category)
            == Some(l),
        reconcile_calls(config, category).contains((LabelOp::Remove, l)) <==> exists|d: ChangeTypes|
            d != category && config.spec_label(d) == Some(l),
        config.spec_label(category) is Some ==> reconcile_calls(config, category)[0] == (
            LabelOp::Add,
            config.spec_label(category).unwrap(),
        ),
{
    let rs = config.spec_other_labels(category);
    let a = add_calls(config.spec_label(category));
    let all = reconcile_calls(config, category);
    remove_calls_hold_removed(rs);
    other_labels_are_removed(config, category, l);
    if all.contains((LabelOp::Add, l)) {
        let i = choose|i: int| 0 <= i < all.len() && all[i] == (LabelOp::Add, l);
        if i >= a.len() {
            assert(remove_calls(rs)[i - a.len()] == all[i]);
        }
    }
    if config.spec_label(category) == Some(l) {
        assert(all[0] == (LabelOp::Add, l));
    }
    if all.contains((LabelOp::Remove, l)) {
        let i = choose|i: int| 0 <= i < all.len() && all[i] == (LabelOp::Remove, l);
        assert(remove_calls(rs)[i - a.len()] == all[i]);
    }
    if removed(rs).contains(l) {
        let j = choose|j: int| 0 <= j < remove_calls(rs).len() && remove_calls(rs)[j] == (LabelOp::Remove, l);
        assert(all[a.len() + j] == (LabelOp::Remove, l));
    }

}

/// Reconciling twice in a row for the same category leaves the same labels
/// as reconciling once.
pub proof fn reconciliation_is_idempotent(config: LabelConfig, category: ChangeTypes, labels: Set<Seq<char>>)
    ensures
        apply_calls(apply_calls(labels, reconcile_calls(config, category)), reconcile_calls(config, category))
            == apply_calls(labels, reconcile_calls(config, category)),
{
    let once = apply_calls(labels, reconcile_calls(config, category));
    let twice = apply_calls(once, reconcile_calls(config, category));
    assert forall|l: Seq<char>| twice.contains(l) <==> once.contains(l) by {
        reconciliation_result(config, category, labels, l);
        reconciliation_result(config, category, once, l);
    }
    assert(twice =~= once);
}

} // verus!
