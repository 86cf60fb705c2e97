//! What a pass over an answer file means: how each rule's match depth moves
//! with every event, when a rule is armed, and what is written for each event.

use crate::autounattend::{Transform, VirtioDriverVersion};
use crate::events::{AttributeView, ItemView};
use crate::text::{decimal, replace_all};
use vstd::prelude::*;

verus! {

/// One step of a rule's path: an element name and the attributes that the
/// element must carry.
pub struct ElementView {
    pub name: Seq<char>,
    pub attributes: Seq<AttributeView>,
}

/// A replacement rule: the path from the document's root element down to the
/// element whose text is rewritten, and the transform applied to that text.
pub struct RuleView {
    pub elements: Seq<ElementView>,
    pub transform: Transform,
}

/// What a pass does with one event.
pub enum Decision {
    /// The event is written as it was read.
    Forward,
    /// Character data with this text is written in the event's place.
    Replace(Seq<char>),
    /// The rules with these two indices, the two lowest, are armed on the
    /// same character data: the pass stops.
    Overlap { first: int, second: int },
}

/// What a pass has handed to its output for one event.
pub enum Written {
    /// The event itself.
    Forwarded(ItemView),
    /// Character data with this text, in place of the event.
    Replaced(Seq<char>),
}

/// The driver directory, between backslashes, that templates carry.
pub open spec fn placeholder() -> Seq<char> {
    seq!['\\', '2', 'k', '2', '2', '\\']
}

/// The driver directory, between backslashes, of a release.
pub open spec fn version_token(version: VirtioDriverVersion) -> Seq<char> {
    match version {
        VirtioDriverVersion::Server2016 => seq!['\\', '2', 'k', '1', '6', '\\'],
        VirtioDriverVersion::Server2019 => seq!['\\', '2', 'k', '1', '9', '\\'],
        VirtioDriverVersion::Server2022 => seq!['\\', '2', 'k', '2', '2', '\\'],
    }
}

/// The text that a transform writes for the text `old`.
pub open spec fn transformed(transform: Transform, old: Seq<char>) -> Seq<char> {
    match transform {
        Transform::ImageIndex(index) => decimal(index as nat),
        Transform::DriverVersion(version) => replace_all(
            old,
            placeholder(),
            version_token(version),
        ),
    }
}

/// Some attribute of `have` has the name and the value of `want`.
pub open spec fn attribute_present(want: AttributeView, have: Seq<AttributeView>) -> bool {
    exists|j: int| 0 <= j < have.len() && #[trigger] have[j] == want
}

/// An element start with this name and these attributes satisfies the path
/// step `want`: the names are equal and every attribute that the step asks
/// for is present. Further attributes do not matter.
pub open spec fn element_matches(
    want: ElementView,
    name: Seq<char>,
    attributes: Seq<AttributeView>,
) -> bool {
    &&& want.name == name
    &&& forall|i: int|
        0 <= i < want.attributes.len() ==> attribute_present(
            #[trigger] want.attributes[i],
            attributes,
        )
}

/// A rule is armed at a depth when its whole path is matched.
pub open spec fn armed_at(rule: RuleView, depth: nat) -> bool {
    depth == rule.elements.len()
}

/// The match depth of `rule` after `item`, when it was `depth` before.
///
/// An element start that satisfies the next path step moves the depth up by
/// one; an element end named like the last matched step moves it down by
/// one; nothing else moves it.
pub open spec fn depth_after(rule: RuleView, depth: nat, item: ItemView) -> nat {
    match item {
        ItemView::StartElement { name, attributes } => {
            if depth < rule.elements.len() && element_matches(
                rule.elements[depth as int],
                name,
                attributes,
            ) {
                depth + 1
            } else {
                depth
            }
        },
        ItemView::EndElement { name } => {
            if 0 < depth <= rule.elements.len() && rule.elements[depth - 1].name == name {
                (depth - 1) as nat
            } else {
                depth
            }
        },
        _ => depth,
    }
}

/// The match depths of all rules after `item`.
pub open spec fn depths_after(rules: Seq<RuleView>, depths: Seq<nat>, item: ItemView) -> Seq<nat> {
    Seq::new(depths.len(), |i: int| depth_after(rules[i], depths[i], item))
}

/// Every depth lies within its rule's path.
pub open spec fn depths_fit(rules: Seq<RuleView>, depths: Seq<nat>) -> bool {
    &&& depths.len() == rules.len()
    &&& forall|i: int| 0 <= i < rules.len() ==> #[trigger] depths[i] <= rules[i].elements.len()
}

/// The indices below `n` of the rules that are armed, in rising order.
pub open spec fn armed_below(rules: Seq<RuleView>, depths: Seq<nat>, n: int) -> Seq<int>
    decreases n,
{
    if n <= 0 {
        Seq::empty()
    } else if armed_at(rules[n - 1], depths[n - 1]) {
        armed_below(rules, depths, n - 1).push(n - 1)
    } else {
        armed_below(rules, depths, n - 1)
    }
}

/// The indices of all armed rules, in rising order.
pub open spec fn armed(rules: Seq<RuleView>, depths: Seq<nat>) -> Seq<int> {
    armed_below(rules, depths, rules.len() as int)
}

/// What a pass does with `item` when the rules stand at `depths`.
///
/// Character data is replaced when exactly one rule is armed, stops the pass
/// when several are, and is forwarded when none is. Every other event is
/// forwarded.
pub open spec fn decide(rules: Seq<RuleView>, depths: Seq<nat>, item: ItemView) -> Decision {
    match item {
        ItemView::Characters(text) => {
            let hits = armed(rules, depths);
            if hits.len() == 0 {
                Decision::Forward
            } else if hits.len() == 1 {
                Decision::Replace(transformed(rules[hits[0]].transform, text))
            } else {
                Decision::Overlap { first: hits[0], second: hits[1] }
            }
        },
        _ => Decision::Forward,
    }
}

/// Depth zero for each of `n` rules: the state in which a pass starts.
pub open spec fn initial_depths(n: nat) -> Seq<nat> {
    Seq::new(n, |i: int| 0nat)
}

/// The match depths just before the event with index `k`, in a pass over
/// `items` that starts with every depth at zero.
pub open spec fn depths_before(rules: Seq<RuleView>, items: Seq<ItemView>, k: nat) -> Seq<nat>
    decreases k,
{
    if k == 0 {
        initial_depths(rules.len())
    } else {
        depths_after(rules, depths_before(rules, items, (k - 1) as nat), items[k - 1])
    }
}

/// What a pass over `items` does with the event with index `k`.
pub open spec fn decision_at(rules: Seq<RuleView>, items: Seq<ItemView>, k: int) -> Decision {
    decide(rules, depths_before(rules, items, k as nat), items[k])
}

/// No event among the first `k` stops the pass.
pub open spec fn no_overlap_before(rules: Seq<RuleView>, items: Seq<ItemView>, k: int) -> bool {
    forall|j: int| 0 <= j < k ==> !(#[trigger] decision_at(rules, items, j) is Overlap)
}

/// What a pass writes for the event with index `k`.
pub open spec fn written_at(rules: Seq<RuleView>, items: Seq<ItemView>, k: int) -> Written {
    match decision_at(rules, items, k) {
        Decision::Replace(text) => Written::Replaced(text),
        _ => Written::Forwarded(items[k]),
    }
}

/// What a pass writes for the first `k` events.
pub open spec fn written_before(rules: Seq<RuleView>, items: Seq<ItemView>, k: int) -> Seq<
    Written,
> {
    Seq::new(k as nat, |j: int| written_at(rules, items, j))
}

/// The number of events among the first `k` whose text a pass replaces.
pub open spec fn substitutions_before(rules: Seq<RuleView>, items: Seq<ItemView>, k: int) -> nat
    decreases k,
{
    if k <= 0 {
        0
    } else if decision_at(rules, items, k - 1) is Replace {
        substitutions_before(rules, items, k - 1) + 1
    } else {
        substitutions_before(rules, items, k - 1)
    }
}

/// The event that stands in the output for what a pass has written.
pub open spec fn item_written(written: Written) -> ItemView {
    match written {
        Written::Forwarded(item) => item,
        Written::Replaced(text) => ItemView::Characters(text),
    }
}

/// The events of the document that a pass over `items` writes, if nothing
/// stops it.
pub open spec fn rewritten(rules: Seq<RuleView>, items: Seq<ItemView>) -> Seq<ItemView> {
    Seq::new(items.len(), |k: int| item_written(written_at(rules, items, k)))
}

/// The armed rules below `m` are the first of the armed rules below any
/// larger bound.
pub proof fn lemma_armed_below_grows(rules: Seq<RuleView>, depths: Seq<nat>, m: int, n: int)
    requires
        0 <= m <= n,
    ensures
        armed_below(rules, depths, m).len() <= armed_below(rules, depths, n).len(),
        forall|j: int|
            0 <= j < armed_below(rules, depths, m).len() ==> armed_below(rules, depths, n)[j]
                == armed_below(rules, depths, m)[j],
    decreases n - m,
{
    if m < n {
        lemma_armed_below_grows(rules, depths, m, n - 1);
    }
}

} // verus!
