//! What holds of every pass, whatever the document and the rules.

use crate::autounattend::{handed_at, rules_for, Transform, VirtioDriverVersion};
use crate::events::ItemView;
use crate::matching::{
    armed, armed_at, armed_below, decision_at, depths_after, depths_before, depths_fit,
    item_written, no_overlap_before, placeholder, rewritten, substitutions_before, transformed,
    written_at, written_before, RuleView, Written,
};
use crate::text::{
    contains, decimal, lemma_replace_all_by_itself, lemma_replace_all_without_pattern,
};
use crate::xml_stream::{pictures, Handed};
use vstd::prelude::*;

verus! {

/// The armed rules below `n` are exactly the indices below `n` at which a
/// rule is armed, in rising order.
pub proof fn lemma_armed_below_members(rules: Seq<RuleView>, depths: Seq<nat>, n: int)
    requires
        0 <= n,
    ensures
        forall|j: int|
            0 <= j < armed_below(rules, depths, n).len() ==> {
                let i = #[trigger] armed_below(rules, depths, n)[j];
                0 <= i < n && armed_at(rules[i], depths[i])
            },
        forall|j: int, k: int|
            0 <= j < k < armed_below(rules, depths, n).len() ==> armed_below(rules, depths, n)[j]
                < armed_below(rules, depths, n)[k],
        forall|i: int|
            0 <= i < n && armed_at(rules[i], depths[i]) ==> armed_below(rules, depths, n).contains(
                i,
            ),
    decreases n,
{
    if n > 0 {
        lemma_armed_below_members(rules, depths, n - 1);
        let before = armed_below(rules, depths, n - 1);
        let now = armed_below(rules, depths, n);
        assert forall|i: int| 0 <= i < n && armed_at(rules[i], depths[i]) implies now.contains(
            i,
        ) by {
            if i < n - 1 {
                assert(before.contains(i));
                let j = choose|j: int| 0 <= j < before.len() && before[j] == i;
                assert(now[j] == i);
            } else {
                assert(now[now.len() - 1] == i);
            }
        }
    }
}

/// Throughout a pass every rule's match depth lies between zero and the
/// length of its path.
pub proof fn law_depths_stay_within_paths(rules: Seq<RuleView>, items: Seq<ItemView>, k: nat)
    ensures
        depths_fit(rules, depths_before(rules, items, k)),
    decreases k,
{
    if k > 0 {
        law_depths_stay_within_paths(rules, items, (k - 1) as nat);
    }
}

/// Only character data is ever replaced, and only while some rule is armed:
/// every other event, and every text on which no rule is armed, is written
/// as it was read.
pub proof fn law_only_armed_text_changes(rules: Seq<RuleView>, items: Seq<ItemView>, k: int)
    requires
        0 <= k < items.len(),
        !(items[k] is Characters) || forall|i: int|
            0 <= i < rules.len() ==> !armed_at(
                rules[i],
                #[trigger] depths_before(rules, items, k as nat)[i],
            ),
    ensures
        written_at(rules, items, k) == Written::Forwarded(items[k]),
        rewritten(rules, items)[k] == items[k],
{
    if items[k] is Characters {
        let depths = depths_before(rules, items, k as nat);
        lemma_armed_below_members(rules, depths, rules.len() as int);
        if armed(rules, depths).len() > 0 {
            let i = armed(rules, depths)[0];
            assert(armed_at(rules[i], depths[i]));
        }
    }
}

/// A pass without rules copies the document: every event is written as it
/// was read, nothing is counted, and nothing stops the pass.
pub proof fn law_no_rules_copy(items: Seq<ItemView>)
    ensures
        rules_for(None, None) == Seq::<RuleView>::empty(),
        rewritten(Seq::<RuleView>::empty(), items) == items,
        forall|k: int|
            0 <= k < items.len() ==> #[trigger] written_at(Seq::<RuleView>::empty(), items, k)
                == Written::Forwarded(items[k]),
        no_overlap_before(Seq::<RuleView>::empty(), items, items.len() as int),
        substitutions_before(Seq::<RuleView>::empty(), items, items.len() as int) == 0,
{
    let rules = Seq::<RuleView>::empty();
    assert(rules_for(None, None) =~= rules);
    assert forall|k: int| 0 <= k < items.len() implies #[trigger] written_at(rules, items, k)
        == Written::Forwarded(items[k]) && !(decision_at(rules, items, k) is Overlap) by {
        law_only_armed_text_changes(rules, items, k);
        assert(armed(rules, depths_before(rules, items, k as nat)).len() == 0);
    }
    assert(rewritten(rules, items) =~= items);
    lemma_no_replacement_no_count(rules, items, items.len() as int);
}

/// What a pass does not replace it hands to the writer as the reader
/// handed it out; a pass without rules does so with every event.
pub proof fn law_what_is_not_replaced_is_handed_on(
    rules: Seq<RuleView>,
    events: Seq<xml::reader::XmlEvent>,
    k: int,
)
    requires
        0 <= k < events.len(),
    ensures
        !(decision_at(rules, pictures(events), k) is Replace) ==> handed_at(rules, events, k)
            == Handed::Event(events[k]),
        rules.len() == 0 ==> handed_at(rules, events, k) == Handed::Event(events[k]),
{
    if rules.len() == 0 {
        assert(rules =~= Seq::<RuleView>::empty());
        law_no_rules_copy(pictures(events));
    }
}

/// Where no event among the first `k` is replaced, nothing is counted.
proof fn lemma_no_replacement_no_count(rules: Seq<RuleView>, items: Seq<ItemView>, k: int)
    requires
        0 <= k <= items.len(),
        forall|j: int|
            0 <= j < k ==> #[trigger] written_at(rules, items, j) == Written::Forwarded(items[j]),
    ensures
        substitutions_before(rules, items, k) == 0,
    decreases k,
{
    if k > 0 {
        lemma_no_replacement_no_count(rules, items, k - 1);
        assert(written_at(rules, items, k - 1) == Written::Forwarded(items[k - 1]));
    }
}

/// The number of texts that what a pass has written holds in the place of
/// events.
pub open spec fn replaced_entries(written: Seq<Written>) -> nat {
    written.filter(|entry: Written| entry is Replaced).len()
}

/// The count of substitutions is the number of texts that the pass wrote in
/// the place of events, and each such text stands where exactly one rule was
/// armed on character data.
pub proof fn law_count_is_number_of_replacements(
    rules: Seq<RuleView>,
    items: Seq<ItemView>,
    k: int,
)
    requires
        0 <= k <= items.len(),
    ensures
        substitutions_before(rules, items, k) == replaced_entries(
            written_before(rules, items, k),
        ),
        substitutions_before(rules, items, k) <= k,
        forall|j: int|
            0 <= j < k ==> (#[trigger] written_at(rules, items, j) is Replaced <==> items[j]
                is Characters && armed(rules, depths_before(rules, items, j as nat)).len()
                == 1),
    decreases k,
{
    reveal(Seq::filter);
    let replaced = |entry: Written| entry is Replaced;
    if k > 0 {
        law_count_is_number_of_replacements(rules, items, k - 1);
        let now = written_before(rules, items, k);
        let before = written_before(rules, items, k - 1);
        assert(now.drop_last() =~= before);
        assert(now.last() == written_at(rules, items, k - 1));
    } else {
        assert(written_before(rules, items, 0).len() == 0);
    }
}

/// The image index rule writes the same text whatever it finds, so writing
/// it twice is writing it once.
pub proof fn law_image_index_ignores_old_text(index: u32, old: Seq<char>, other: Seq<char>)
    ensures
        transformed(Transform::ImageIndex(index), old) == decimal(index as nat),
        transformed(Transform::ImageIndex(index), old) == transformed(
            Transform::ImageIndex(index),
            other,
        ),
        transformed(
            Transform::ImageIndex(index),
            transformed(Transform::ImageIndex(index), old),
        ) == transformed(Transform::ImageIndex(index), old),
{
}

/// A pass moves the match depths by element starts and ends alone, and it
/// writes those as they were read: the depths over the rewritten document
/// are those over the document.
proof fn lemma_rewritten_keeps_depths(rules: Seq<RuleView>, items: Seq<ItemView>, k: nat)
    requires
        k <= items.len(),
    ensures
        depths_before(rules, rewritten(rules, items), k) == depths_before(rules, items, k),
    decreases k,
{
    if k > 0 {
        lemma_rewritten_keeps_depths(rules, items, (k - 1) as nat);
        let depths = depths_before(rules, items, (k - 1) as nat);
        let read = items[k - 1];
        let wrote = rewritten(rules, items)[k - 1];
        assert(wrote == item_written(written_at(rules, items, k - 1)));
        assert(depths_after(rules, depths, wrote) =~= depths_after(rules, depths, read));
    }
}

/// A second pass with rules that all write an image index changes nothing:
/// it writes what the first pass wrote, and replaces the same texts.
pub proof fn law_image_index_pass_is_idempotent(rules: Seq<RuleView>, items: Seq<ItemView>)
    requires
        forall|i: int| 0 <= i < rules.len() ==> #[trigger] rules[i].transform is ImageIndex,
        no_overlap_before(rules, items, items.len() as int),
    ensures
        no_overlap_before(rules, rewritten(rules, items), items.len() as int),
        rewritten(rules, rewritten(rules, items)) == rewritten(rules, items),
        substitutions_before(rules, rewritten(rules, items), items.len() as int)
            == substitutions_before(rules, items, items.len() as int),
{
    let once = rewritten(rules, items);
    assert forall|k: int| 0 <= k < items.len() implies written_at(rules, once, k) == written_at(
        rules,
        items,
        k,
    ) || (written_at(rules, items, k) is Forwarded && written_at(rules, once, k)
        == Written::Forwarded(once[k])) by {
        lemma_same_decision_on_rewritten(rules, items, k);
    }
    assert forall|k: int| 0 <= k < items.len() implies !(#[trigger] decision_at(rules, once, k)
        is Overlap) by {
        lemma_same_decision_on_rewritten(rules, items, k);
        assert(!(decision_at(rules, items, k) is Overlap));
    }
    assert forall|k: int| 0 <= k < items.len() implies rewritten(rules, once)[k] == once[k] by {
        lemma_same_decision_on_rewritten(rules, items, k);
    }
    assert(rewritten(rules, once) =~= once);
    lemma_same_count_on_rewritten(rules, items, items.len() as int);
}

/// Under rules that all write an image index, a second pass decides for
/// each event as the first pass did.
proof fn lemma_same_decision_on_rewritten(rules: Seq<RuleView>, items: Seq<ItemView>, k: int)
    requires
        0 <= k < items.len(),
        forall|i: int| 0 <= i < rules.len() ==> #[trigger] rules[i].transform is ImageIndex,
    ensures
        decision_at(rules, rewritten(rules, items), k) == decision_at(rules, items, k),
        item_written(written_at(rules, rewritten(rules, items), k)) == rewritten(rules, items)[k],
{
    lemma_rewritten_keeps_depths(rules, items, k as nat);
    let depths = depths_before(rules, items, k as nat);
    lemma_armed_below_members(rules, depths, rules.len() as int);
    if items[k] is Characters && armed(rules, depths).len() == 1 {
        let i = armed(rules, depths)[0];
        assert(rules[i].transform is ImageIndex);
    }
}

/// Under rules that all write an image index, a second pass counts as the
/// first pass did.
proof fn lemma_same_count_on_rewritten(rules: Seq<RuleView>, items: Seq<ItemView>, k: int)
    requires
        0 <= k <= items.len(),
        forall|i: int| 0 <= i < rules.len() ==> #[trigger] rules[i].transform is ImageIndex,
    ensures
        substitutions_before(rules, rewritten(rules, items), k) == substitutions_before(
            rules,
            items,
            k,
        ),
    decreases k,
{
    if k > 0 {
        lemma_same_count_on_rewritten(rules, items, k - 1);
        lemma_same_decision_on_rewritten(rules, items, k - 1);
    }
}

/// The driver path rule for the release of the templates writes every text
/// back as it found it.
pub proof fn law_template_release_changes_nothing(old: Seq<char>)
    ensures
        transformed(Transform::DriverVersion(VirtioDriverVersion::Server2022), old) == old,
{
    lemma_replace_all_by_itself(old, placeholder());
}

/// A driver path without the template's release directory is written back
/// unchanged, though the driver path rule is armed on it and counts it.
pub proof fn law_path_without_placeholder_is_kept(
    rules: Seq<RuleView>,
    items: Seq<ItemView>,
    k: int,
)
    requires
        0 <= k < items.len(),
        items[k] matches ItemView::Characters(text) && !contains(text, placeholder()),
        decision_at(rules, items, k) is Replace,
        forall|i: int| 0 <= i < rules.len() ==> #[trigger] rules[i].transform is DriverVersion,
    ensures
        rewritten(rules, items)[k] == items[k],
{
    let depths = depths_before(rules, items, k as nat);
    lemma_armed_below_members(rules, depths, rules.len() as int);
    let i = armed(rules, depths)[0];
    assert(rules[i].transform is DriverVersion);
    let text = items[k]->Characters_0;
    lemma_replace_all_without_pattern(
        text,
        placeholder(),
        crate::matching::version_token(rules[i].transform->DriverVersion_0),
    );
}

/// Two rules with the same path have the same match depth throughout a pass.
proof fn lemma_same_path_same_depth(
    rules: Seq<RuleView>,
    items: Seq<ItemView>,
    i: int,
    j: int,
    k: nat,
)
    requires
        0 <= i < rules.len(),
        0 <= j < rules.len(),
        rules[i].elements == rules[j].elements,
    ensures
        depths_before(rules, items, k)[i] == depths_before(rules, items, k)[j],
    decreases k,
{
    if k > 0 {
        lemma_same_path_same_depth(rules, items, i, j, (k - 1) as nat);
        law_depths_stay_within_paths(rules, items, (k - 1) as nat);
    }
}

/// Two rules with the same path stop the pass at the first character data
/// inside the element that the path leads to: the pass does not run to its
/// end.
pub proof fn law_identical_paths_stop_the_pass(
    rules: Seq<RuleView>,
    items: Seq<ItemView>,
    i: int,
    j: int,
    k: int,
)
    requires
        0 <= i < j < rules.len(),
        rules[i].elements == rules[j].elements,
        0 <= k < items.len(),
        items[k] is Characters,
        armed_at(rules[i], depths_before(rules, items, k as nat)[i]),
    ensures
        decision_at(rules, items, k) is Overlap,
        !no_overlap_before(rules, items, items.len() as int),
{
    let depths = depths_before(rules, items, k as nat);
    lemma_same_path_same_depth(rules, items, i, j, k as nat);
    law_depths_stay_within_paths(rules, items, k as nat);
    lemma_armed_below_members(rules, depths, rules.len() as int);
    let hits = armed(rules, depths);
    assert(hits.contains(i));
    assert(hits.contains(j));
    let a = choose|a: int| 0 <= a < hits.len() && hits[a] == i;
    let b = choose|b: int| 0 <= b < hits.len() && hits[b] == j;
    assert(a != b);
    assert(hits.len() >= 2);
}

} // verus!
