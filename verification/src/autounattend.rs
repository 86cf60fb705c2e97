//! Rewrites selected text values of an unattended-installation answer file:
//! the index of the Windows image to install and the release directory in
//! the paths of the virtio drivers.
//!
//! The document is read as a stream of events. Each rule names a path of
//! elements from the document's root down to the element whose text it
//! rewrites:
//!
//! ```text
//! <unattend>
//!   <settings pass="windowsPE">
//!     <component name="Microsoft-Windows-Setup">
//!       <ImageInstall>
//!         <OSImage>
//!           <InstallFrom>
//!             <MetaData wcm:action="add">
//!               <Key>/IMAGE/INDEX</Key>
//!               <Value>2</Value>                   the image index
//! ```
//!
//! ```text
//! <unattend>
//!   <settings pass="offlineServicing">
//!     <component name="Microsoft-Windows-PnpCustomizationsNonWinPE">
//!       <DriverPaths>
//!         <PathAndCredentials wcm:action="add" wcm:keyValue="1">
//!           <Path>D:\NetKVM\2k22\amd64</Path>      a driver path
//! ```
//!
//! A rule keeps one number while the document streams by, its match depth:
//! how many leading steps of its path the elements that are open right now
//! satisfy. The depth follows element names only, so a path step's name that
//! comes back deeper in the same branch moves it too.

use crate::events::{AttributeView, ItemView, XmlAttribute, XmlItem};
use crate::matching::{
    armed, armed_at, armed_below, attribute_present, decide, decision_at, depth_after,
    depths_after, depths_before, depths_fit, element_matches, initial_depths,
    item_written, lemma_armed_below_grows, no_overlap_before, placeholder, rewritten,
    substitutions_before, transformed, version_token, written_at, written_before, Decision,
    ElementView, RuleView, Written,
};
use crate::xml_stream::{
    next_event, picture, pictures, source_events, source_fails, Handed, XmlSink, XmlSource,
};
use crate::text::{decimal, decimal_string, replace_all, replace_all_in};
use vstd::prelude::*;

verus! {

/// The Windows Server release whose virtio drivers an answer file should name.
#[derive(Clone, Copy, Debug, PartialEq, Eq, Structural)]
pub enum VirtioDriverVersion {
    Server2016,
    Server2019,
    Server2022,
}

/// How a rule turns the text it finds into the text it writes.
#[derive(Clone, Copy, Debug, PartialEq, Eq, Structural)]
pub enum Transform {
    /// Writes the decimal numeral of the image index, whatever the old text.
    ImageIndex(u32),
    /// Replaces the driver directory of the template's release by the one of
    /// the given release, wherever it occurs in the old text.
    DriverVersion(VirtioDriverVersion),
}

/// An attribute that an element must carry to satisfy a path step.
#[derive(Debug)]
pub struct MatchAttribute {
    pub name: String,
    pub value: String,
}

/// One step of a rule's path.
#[derive(Debug)]
pub struct MatchElement {
    pub name: String,
    pub attributes: Vec<MatchAttribute>,
}

/// A replacement rule: a path of elements and the transform for the text of
/// the last one.
#[derive(Debug)]
pub struct ReplacementRule {
    pub elements: Vec<MatchElement>,
    pub transform: Transform,
}

impl DeepView for MatchAttribute {
    type V = AttributeView;

    open spec fn deep_view(&self) -> AttributeView {
        AttributeView { name: self.name@, value: self.value@ }
    }
}

impl DeepView for MatchElement {
    type V = ElementView;

    open spec fn deep_view(&self) -> ElementView {
        ElementView { name: self.name@, attributes: self.attributes.deep_view() }
    }
}

impl DeepView for ReplacementRule {
    type V = RuleView;

    open spec fn deep_view(&self) -> RuleView {
        RuleView { elements: self.elements.deep_view(), transform: self.transform }
    }
}

/// A path step that asks for a name only.
pub open spec fn plain_step(name: Seq<char>) -> ElementView {
    ElementView { name, attributes: Seq::empty() }
}

/// A path step that asks for a name and one attribute.
pub open spec fn keyed_step(name: Seq<char>, key: Seq<char>, value: Seq<char>) -> ElementView {
    ElementView { name, attributes: seq![AttributeView { name: key, value }] }
}

impl MatchElement {
    /// A path step that asks for a name only.
    pub fn plain(name: &str) -> (step: MatchElement)
        ensures
            step.deep_view() == plain_step(name@),
    {
        let step = MatchElement { name: name.to_owned(), attributes: Vec::new() };
        assert(step.attributes.deep_view() =~= Seq::<AttributeView>::empty());
        step
    }

    /// A path step that asks for a name and one attribute.
    pub fn keyed(name: &str, key: &str, value: &str) -> (step: MatchElement)
        ensures
            step.deep_view() == keyed_step(name@, key@, value@),
    {
        let mut attributes: Vec<MatchAttribute> = Vec::new();
        attributes.push(MatchAttribute { name: key.to_owned(), value: value.to_owned() });
        let step = MatchElement { name: name.to_owned(), attributes };
        assert(step.attributes.deep_view() =~= seq![AttributeView { name: key@, value: value@ }]);
        step
    }
}

impl ReplacementRule {
    /// A rule with the given path and transform.
    pub fn new(elements: Vec<MatchElement>, transform: Transform) -> (rule: ReplacementRule)
        ensures
            rule.deep_view() == (RuleView { elements: elements.deep_view(), transform }),
    {
        ReplacementRule { elements, transform }
    }

    /// Tells whether the rule's whole path is matched at `depth`.
    pub fn is_armed(&self, depth: usize) -> (armed: bool)
        ensures
            armed == armed_at(self.deep_view(), depth as nat),
    {
        depth == self.elements.len()
    }
}

/// The text to write for an image index: its decimal numeral. The old text
/// does not enter into it.
pub fn replace_image_index(_old: &str, new_index: u32) -> (text: String)
    ensures
        text@ == decimal(new_index as nat),
        text@ == transformed(Transform::ImageIndex(new_index), _old@),
{
    decimal_string(new_index as u64)
}

/// The driver path `path` with the template's release directory replaced by
/// that of `version`, wherever it occurs. A path without the template's
/// release directory comes back unchanged.
pub fn replace_version_in_driver_path(path: &str, version: VirtioDriverVersion) -> (text: String)
    ensures
        text@ == replace_all(path@, placeholder(), version_token(version)),
        text@ == transformed(Transform::DriverVersion(version), path@),
{
    let token = match version {
        VirtioDriverVersion::Server2016 => "\\2k16\\",
        VirtioDriverVersion::Server2019 => "\\2k19\\",
        VirtioDriverVersion::Server2022 => "\\2k22\\",
    };
    proof {
        reveal_strlit("\\2k16\\");
        reveal_strlit("\\2k19\\");
        reveal_strlit("\\2k22\\");
        assert("\\2k22\\"@ =~= placeholder());
        assert(token@ =~= version_token(version));
    }
    replace_all_in(path, "\\2k22\\", token)
}

impl Transform {
    /// The text that the transform writes for the text `old`.
    pub fn apply(&self, old: &str) -> (text: String)
        ensures
            text@ == transformed(*self, old@),
    {
        match self {
            Transform::ImageIndex(index) => replace_image_index(old, *index),
            Transform::DriverVersion(version) => replace_version_in_driver_path(old, *version),
        }
    }
}

/// The path to the element that holds the index of the image to install.
pub open spec fn image_index_path() -> Seq<ElementView> {
    seq![
        plain_step("unattend"@),
        keyed_step("settings"@, "pass"@, "windowsPE"@),
        keyed_step("component"@, "name"@, "Microsoft-Windows-Setup"@),
        plain_step("ImageInstall"@),
        plain_step("OSImage"@),
        plain_step("InstallFrom"@),
        keyed_step("MetaData"@, "action"@, "add"@),
        plain_step("Value"@),
    ]
}

/// The path to the elements that hold the driver paths.
pub open spec fn driver_path_path() -> Seq<ElementView> {
    seq![
        plain_step("unattend"@),
        keyed_step("settings"@, "pass"@, "offlineServicing"@),
        keyed_step("component"@, "name"@, "Microsoft-Windows-PnpCustomizationsNonWinPE"@),
        keyed_step("PathAndCredentials"@, "action"@, "add"@),
        plain_step("Path"@),
    ]
}

/// The rules for a configuration: the image index rule if an index is given,
/// then the driver path rule if a release is given.
pub open spec fn rules_for(
    image_index: Option<u32>,
    virtio_driver_version: Option<VirtioDriverVersion>,
) -> Seq<RuleView> {
    let index_rules = match image_index {
        Some(index) => seq![
            RuleView { elements: image_index_path(), transform: Transform::ImageIndex(index) },
        ],
        None => Seq::empty(),
    };
    let driver_rules = match virtio_driver_version {
        Some(version) => seq![
            RuleView { elements: driver_path_path(), transform: Transform::DriverVersion(version) },
        ],
        None => Seq::empty(),
    };
    index_rules + driver_rules
}

/// The rule that writes `index` as the index of the image to install.
pub fn image_index_rule(index: u32) -> (rule: ReplacementRule)
    ensures
        rule.deep_view() == (RuleView {
            elements: image_index_path(),
            transform: Transform::ImageIndex(index),
        }),
{
    let mut elements: Vec<MatchElement> = Vec::new();
    elements.push(MatchElement::plain("unattend"));
    elements.push(MatchElement::keyed("settings", "pass", "windowsPE"));
    elements.push(MatchElement::keyed("component", "name", "Microsoft-Windows-Setup"));
    elements.push(MatchElement::plain("ImageInstall"));
    elements.push(MatchElement::plain("OSImage"));
    elements.push(MatchElement::plain("InstallFrom"));
    elements.push(MatchElement::keyed("MetaData", "action", "add"));
    elements.push(MatchElement::plain("Value"));
    assert(elements.deep_view() =~= image_index_path());
    ReplacementRule::new(elements, Transform::ImageIndex(index))
}

/// The rule that points the driver paths at the directory of `version`.
pub fn driver_path_rule(version: VirtioDriverVersion) -> (rule: ReplacementRule)
    ensures
        rule.deep_view() == (RuleView {
            elements: driver_path_path(),
            transform: Transform::DriverVersion(version),
        }),
{
    let mut elements: Vec<MatchElement> = Vec::new();
    elements.push(MatchElement::plain("unattend"));
    elements.push(MatchElement::keyed("settings", "pass", "offlineServicing"));
    elements.push(
        MatchElement::keyed("component", "name", "Microsoft-Windows-PnpCustomizationsNonWinPE"),
    );
    elements.push(MatchElement::keyed("PathAndCredentials", "action", "add"));
    elements.push(MatchElement::plain("Path"));
    assert(elements.deep_view() =~= driver_path_path());
    ReplacementRule::new(elements, Transform::DriverVersion(version))
}

/// Rewrites answer files by a fixed set of replacement rules.
pub struct AutounattendUpdater {
    rules: Vec<ReplacementRule>,
}

impl View for AutounattendUpdater {
    type V = Seq<RuleView>;

    closed spec fn view(&self) -> Seq<RuleView> {
        self.rules.deep_view()
    }
}

impl AutounattendUpdater {
    /// The updater for a configuration: it rewrites the image index if
    /// `image_index` is given and the driver paths if `virtio_driver_version`
    /// is given. With neither it copies the document.
    pub fn new(
        image_index: Option<u32>,
        virtio_driver_version: Option<VirtioDriverVersion>,
    ) -> (updater: Self)
        ensures
            updater@ == rules_for(image_index, virtio_driver_version),
    {
        let mut rules: Vec<ReplacementRule> = Vec::new();
        if let Some(index) = image_index {
            rules.push(image_index_rule(index));
        }
        if let Some(version) = virtio_driver_version {
            rules.push(driver_path_rule(version));
        }
        assert(rules.deep_view() =~= rules_for(image_index, virtio_driver_version));
        AutounattendUpdater { rules }
    }

    /// The updater that applies `rules`, whatever their paths. Rules whose
    /// paths can be matched together make a pass fail at the first text that
    /// both would rewrite.
    pub fn from_rules(rules: Vec<ReplacementRule>) -> (updater: Self)
        ensures
            updater@ == rules.deep_view(),
    {
        AutounattendUpdater { rules }
    }

    /// The number of rules.
    pub fn rule_count(&self) -> (n: usize)
        ensures
            n == self@.len(),
    {
        self.rules.len()
    }
}

/// The match depths of an updater's rules at one point of a pass.
#[derive(Debug)]
pub struct MatchState {
    depths: Vec<usize>,
}

impl View for MatchState {
    type V = Seq<nat>;

    closed spec fn view(&self) -> Seq<nat> {
        Seq::new(self.depths.len() as nat, |i: int| self.depths[i] as nat)
    }
}

impl MatchState {
    /// The match depth of the rule with index `rule`.
    pub fn depth(&self, rule: usize) -> (depth: usize)
        requires
            rule < self@.len(),
        ensures
            depth == self@[rule as int],
    {
        self.depths[rule]
    }
}

/// What a pass writes in the place of one event.
#[derive(Debug)]
pub enum Action {
    /// The event itself.
    Forward,
    /// Character data with this text.
    Replace(String),
}

/// Two rules are armed on the same character data.
#[derive(Clone, Copy, Debug, PartialEq, Eq, Structural)]
pub struct Overlap {
    /// The index of the first armed rule.
    pub first: usize,
    /// The index of the second armed rule.
    pub second: usize,
}

/// The result of `process_event` is the one that the rules and the depths
/// before the event call for.
pub open spec fn follows(result: Result<Action, Overlap>, decision: Decision) -> bool {
    match decision {
        Decision::Forward => result == Ok::<Action, Overlap>(Action::Forward),
        Decision::Replace(text) => result matches Ok(Action::Replace(new)) && new@ == text,
        Decision::Overlap { first, second } => result matches Err(overlap) && overlap.first
            == first && overlap.second == second,
    }
}

/// Tells whether `have` holds an attribute with the name and value of `want`.
fn has_attribute(want: &MatchAttribute, have: &Vec<XmlAttribute>) -> (found: bool)
    ensures
        found == attribute_present(want.deep_view(), have.deep_view()),
{
    let mut j: usize = 0;
    while j < have.len()
        invariant
            j <= have.len(),
            forall|k: int| 0 <= k < j ==> have.deep_view()[k] != want.deep_view(),
        decreases have.len() - j,
    {
        if want.name == have[j].name && want.value == have[j].value {
            assert(have.deep_view()[j as int] == want.deep_view());
            return true;
        }
        j += 1;
    }
    false
}

/// Tells whether an element start with this name and these attributes
/// satisfies the path step `want`.
fn satisfies(want: &MatchElement, name: &String, attributes: &Vec<XmlAttribute>) -> (ok: bool)
    ensures
        ok == element_matches(want.deep_view(), name@, attributes.deep_view()),
{
    if want.name != *name {
        return false;
    }
    let mut i: usize = 0;
    while i < want.attributes.len()
        invariant
            i <= want.attributes.len(),
            want.name@ == name@,
            forall|k: int|
                0 <= k < i ==> attribute_present(
                    #[trigger] want.deep_view().attributes[k],
                    attributes.deep_view(),
                ),
        decreases want.attributes.len() - i,
    {
        if !has_attribute(&want.attributes[i], attributes) {
            assert(want.deep_view().attributes[i as int] == want.attributes[i as int].deep_view());
            return false;
        }
        assert(want.deep_view().attributes[i as int] == want.attributes[i as int].deep_view());
        i += 1;
    }
    true
}

impl AutounattendUpdater {
    /// The state in which a pass starts: every rule at depth zero.
    pub fn start(&self) -> (state: MatchState)
        ensures
            state@ == initial_depths(self@.len()),
            depths_fit(self@, state@),
    {
        let mut depths: Vec<usize> = Vec::new();
        let mut i: usize = 0;
        while i < self.rules.len()
            invariant
                i <= self.rules.len(),
                depths.len() == i,
                forall|k: int| 0 <= k < i ==> depths[k] == 0,
            decreases self.rules.len() - i,
        {
            depths.push(0);
            i += 1;
        }
        let state = MatchState { depths };
        assert(state@ =~= initial_depths(self@.len()));
        state
    }

    /// Takes one event of the document: moves the match depths as the event
    /// calls for, and says what to write in the event's place.
    ///
    /// An element start moves up every rule whose next path step it
    /// satisfies; an element end moves down every rule whose last matched
    /// step has its name. Character data is replaced by the transform of the
    /// one armed rule, or forwarded if no rule is armed; with several rules
    /// armed nothing is to be written and the two lowest of them are named.
    /// Any other event is forwarded and moves nothing.
    pub fn process_event(&self, state: &mut MatchState, item: &XmlItem) -> (result: Result<
        Action,
        Overlap,
    >)
        requires
            depths_fit(self@, old(state)@),
        ensures
            final(state)@ == depths_after(self@, old(state)@, item.deep_view()),
            depths_fit(self@, final(state)@),
            follows(result, decide(self@, old(state)@, item.deep_view())),
    {
        let ghost rules = self@;
        let ghost before = state@;
        let ghost view = item.deep_view();
        let n = self.rules.len();
        match item {
            XmlItem::StartElement { name, attributes } => {
                let mut i: usize = 0;
                while i < n
                    invariant
                        i <= n,
                        n == self.rules.len(),
                        rules == self@,
                        view == item.deep_view(),
                        view == (ItemView::StartElement {
                            name: name@,
                            attributes: attributes.deep_view(),
                        }),
                        depths_fit(rules, before),
                        state.depths.len() == n,
                        forall|k: int|
                            0 <= k < i ==> state.depths[k] as nat == depth_after(
                                rules[k],
                                before[k],
                                view,
                            ),
                        forall|k: int| i <= k < n ==> state.depths[k] as nat == before[k],
                    decreases n - i,
                {
                    let depth = state.depths[i];
                    let rule = &self.rules[i];
                    assert(rules[i as int] == rule.deep_view());
                    assert(before[i as int] <= rules[i as int].elements.len());
                    if depth < rule.elements.len() {
                        assert(rule.deep_view().elements[depth as int]
                            == rule.elements[depth as int].deep_view());
                        if satisfies(&rule.elements[depth], name, attributes) {
                            state.depths[i] = depth + 1;
                        }
                    }
                    i += 1;
                }
                assert(state@ =~= depths_after(rules, before, view));
                Ok(Action::Forward)
            },
            XmlItem::EndElement { name } => {
                let mut i: usize = 0;
                while i < n
                    invariant
                        i <= n,
                        n == self.rules.len(),
                        rules == self@,
                        view == item.deep_view(),
                        view == (ItemView::EndElement { name: name@ }),
                        depths_fit(rules, before),
                        state.depths.len() == n,
                        forall|k: int|
                            0 <= k < i ==> state.depths[k] as nat == depth_after(
                                rules[k],
                                before[k],
                                view,
                            ),
                        forall|k: int| i <= k < n ==> state.depths[k] as nat == before[k],
                    decreases n - i,
                {
                    let depth = state.depths[i];
                    let rule = &self.rules[i];
                    assert(rules[i as int] == rule.deep_view());
                    assert(before[i as int] <= rules[i as int].elements.len());
                    if depth > 0 {
                        assert(rule.deep_view().elements[depth - 1]
                            == rule.elements[depth - 1].deep_view());
                        if rule.elements[depth - 1].name == *name {
                            state.depths[i] = depth - 1;
                        }
                    }
                    i += 1;
                }
                assert(state@ =~= depths_after(rules, before, view));
                Ok(Action::Forward)
            },
            XmlItem::Characters(text) => {
                assert(state@ =~= depths_after(rules, before, view));
                let mut found: Option<usize> = None;
                let mut i: usize = 0;
                while i < n
                    invariant
                        i <= n,
                        n == self.rules.len(),
                        rules == self@,
                        before == state@,
                        before == old(state)@,
                        view == item.deep_view(),
                        view == ItemView::Characters(text@),
                        before == depths_after(rules, before, view),
                        depths_fit(rules, before),
                        state.depths.len() == n,
                        found is None ==> armed_below(rules, before, i as int).len() == 0,
                        found matches Some(f) ==> f < i && armed_below(rules, before, i as int)
                            == seq![f as int],
                    decreases n - i,
                {
                    assert(rules[i as int] == self.rules[i as int].deep_view());
                    if self.rules[i].is_armed(state.depths[i]) {
                        match found {
                            Some(first) => {
                                proof {
                                    lemma_armed_below_grows(rules, before, i + 1, n as int);
                                    assert(armed_below(rules, before, i + 1) == seq![
                                        first as int,
                                        i as int,
                                    ]);
                                    assert(armed_below(rules, before, i + 1)[0] == first);
                                    assert(armed_below(rules, before, i + 1)[1] == i);
                                }
                                return Err(Overlap { first, second: i });
                            },
                            None => {
                                found = Some(i);
                            },
                        }
                    }
                    i += 1;
                }
                match found {
                    Some(f) => {
                        assert(armed(rules, before)[0] == f);
                        assert(rules[f as int] == self.rules[f as int].deep_view());
                        Ok(Action::Replace(self.rules[f].transform.apply(text.as_str())))
                    },
                    None => Ok(Action::Forward),
                }
            },
            _ => {
                assert(state@ =~= depths_after(rules, before, view));
                Ok(Action::Forward)
            },
        }
    }
}

/// Why a pass over a document stopped before its end.
#[derive(Debug)]
pub enum UpdateError {
    /// The document does not parse.
    Parse(xml::reader::Error),
    /// The writer did not accept what was handed to it.
    Emit(xml::writer::Error),
    /// Two rules are armed on the same character data.
    Overlap(Overlap),
    /// One more substitution would exceed what `usize` can count.
    TooManySubstitutions,
}

/// Everything that a pass over `items` hands to its output if nothing stops
/// it: what it writes for each event, then the end of the document.
pub open spec fn full_output(rules: Seq<RuleView>, items: Seq<ItemView>) -> Seq<Written> {
    written_before(rules, items, items.len() as int).push(
        Written::Forwarded(ItemView::EndDocument),
    )
}

/// What a pass over `events` hands to the writer for the event with index
/// `k`: the text that replaces the event, or else the event itself as it
/// was read.
pub open spec fn handed_at(rules: Seq<RuleView>, events: Seq<xml::reader::XmlEvent>, k: int) -> Handed {
    match written_at(rules, pictures(events), k) {
        Written::Replaced(text) => Handed::Text(text),
        Written::Forwarded(_) => Handed::Event(events[k]),
    }
}

impl AutounattendUpdater {
    /// Runs one pass: reads `input` to its end, hands every event to
    /// `output`, with the text under an armed rule replaced by the rule's
    /// transform, and returns the number of texts replaced.
    ///
    /// The pass stops at the first of these: a write that the writer does
    /// not accept, character data on which two rules are armed, a count of
    /// substitutions that would overflow, the place where the document
    /// stops parsing, the end of the document. Only the last is success.
    /// So the pass succeeds exactly on a document that parses to its end,
    /// on which no two rules are ever armed together, and of which the
    /// writer accepts every event and every text handed to it.
    ///
    /// Whatever the outcome, `output` has been handed the first events of
    /// the rewritten document and nothing else, each event that is not
    /// replaced as the reader handed it out; every write but the last was
    /// accepted; and what `output` had rendered before the pass stands at
    /// the start of what it has rendered after it.
    pub fn run_internal(&self, input: XmlSource, output: &mut XmlSink) -> (result: Result<
        usize,
        UpdateError,
    >)
        ensures
            ({
                let events = source_events(input);
                let items = pictures(events);
                let before = old(output).handed().len() as int;
                let handed = final(output).handed().len() - before;
                &&& 0 <= handed <= items.len() + 1
                &&& final(output).handed().take(before) == old(output).handed()
                &&& forall|k: int|
                    0 <= k < handed && k < events.len() ==> #[trigger] final(output).handed()[before
                        + k] == handed_at(self@, events, k)
                &&& handed == events.len() + 1 ==> (final(output).handed()[before
                    + events.len()] matches Handed::Event(end) && picture(end) is EndDocument)
                &&& final(output).written() == old(output).written() + full_output(
                    self@,
                    items,
                ).take(handed)
                &&& final(output).taken().take(before) == old(output).taken()
                &&& forall|k: int|
                    0 <= k < handed - 1 ==> #[trigger] final(output).taken()[before + k]
                &&& (result matches Err(UpdateError::Emit(_)) <==> handed >= 1
                    && !final(output).taken()[before + handed - 1])
                &&& (result is Ok <==> handed == events.len() + 1 && final(output).taken()[before
                    + events.len()])
                &&& old(output).rendered().is_prefix_of(final(output).rendered())
                &&& no_overlap_before(
                    self@,
                    items,
                    if handed <= items.len() {
                        handed
                    } else {
                        items.len() as int
                    },
                )
                &&& match result {
                    Ok(count) => {
                        &&& handed == items.len() + 1
                        &&& !source_fails(input)
                        &&& count == substitutions_before(self@, items, items.len() as int)
                    },
                    Err(UpdateError::Parse(_)) => handed == items.len() && source_fails(input),
                    Err(UpdateError::Overlap(overlap)) => {
                        &&& handed < items.len()
                        &&& decision_at(self@, items, handed) == (Decision::Overlap {
                            first: overlap.first as int,
                            second: overlap.second as int,
                        })
                    },
                    Err(UpdateError::TooManySubstitutions) => {
                        &&& handed < items.len()
                        &&& decision_at(self@, items, handed) is Replace
                        &&& substitutions_before(self@, items, handed) == usize::MAX
                    },
                    Err(UpdateError::Emit(_)) => true,
                }
            }),
    {
        let ghost rules = self@;
        let ghost events = source_events(input);
        let ghost items = pictures(events);
        let ghost start = output.written();
        let ghost start_handed = output.handed();
        let ghost start_taken = output.taken();
        let ghost full = full_output(rules, items);
        let mut reader = input;
        let mut state = self.start();
        let mut count: usize = 0;
        let ghost mut k: int = 0;
        proof {
            output.lemma_accounts_agree();
            assert(events.subrange(0, events.len() as int) =~= events);
            assert(full.take(0) =~= Seq::<Written>::empty());
            assert(start + full.take(0) =~= start);
            assert(start_handed + Seq::new(0, |j: int| handed_at(rules, events, j))
                =~= start_handed);
            assert(start_taken + Seq::new(0, |j: int| true) =~= start_taken);
        }
        loop
            invariant
                rules == self@,
                events == source_events(input),
                items == pictures(events),
                full == full_output(rules, items),
                start == old(output).written(),
                start_handed == old(output).handed(),
                start_taken == old(output).taken(),
                start_taken.len() == start_handed.len(),
                old(output).rendered().is_prefix_of(output.rendered()),
                0 <= k <= events.len(),
                source_events(reader) == events.subrange(k, events.len() as int),
                source_fails(reader) == source_fails(input),
                state@ == depths_before(rules, items, k as nat),
                depths_fit(rules, state@),
                count == substitutions_before(rules, items, k),
                output.written() == start + full.take(k),
                output.handed() == start_handed + Seq::new(
                    k as nat,
                    |j: int| handed_at(rules, events, j),
                ),
                output.taken() == start_taken + Seq::new(k as nat, |j: int| true),
                no_overlap_before(rules, items, k),
            decreases events.len() - k,
        {
            proof {
                assert((start_handed + Seq::new(k as nat, |j: int| handed_at(rules, events, j))).take(
                    start_handed.len() as int,
                ) =~= start_handed);
                assert((start_taken + Seq::new(k as nat, |j: int| true)).take(
                    start_taken.len() as int,
                ) =~= start_taken);
            }
            let event = match next_event(&mut reader) {
                Ok(event) => event,
                Err(error) => {
                    return Err(UpdateError::Parse(error));
                },
            };
            let ghost last = k == events.len();
            let ghost held = output.handed();
            let ghost answers = output.taken();
            let ghost bytes = output.rendered();
            proof {
                if !last {
                    assert(events.subrange(k, events.len() as int)[0] == events[k]);
                    assert(events.subrange(k, events.len() as int).drop_first()
                        =~= events.subrange(k + 1, events.len() as int));
                    assert(items[k] == picture(events[k]));
                    assert(full[k] == written_at(rules, items, k));
                }
                assert(full.take(k + 1) =~= full.take(k).push(full[k]));
                assert(start + full.take(k).push(full[k]) =~= (start + full.take(k)).push(
                    full[k],
                ));
            }
            let action = match self.process_event(&mut state, event.item()) {
                Ok(action) => action,
                Err(overlap) => {
                    return Err(UpdateError::Overlap(overlap));
                },
            };
            let answer = match action {
                Action::Forward => output.forward(&event),
                Action::Replace(text) => {
                    count = match count.checked_add(1) {
                        Some(more) => more,
                        None => {
                            return Err(UpdateError::TooManySubstitutions);
                        },
                    };
                    output.replace(text.as_str())
                },
            };
            proof {
                let now = output.handed();
                assert(bytes.is_prefix_of(output.rendered())) by {
                    assert(output.rendered().subrange(0, bytes.len() as int) =~= bytes);
                }
                assert(now =~= held.push(now[now.len() - 1]));
                assert(now.take(start_handed.len() as int) =~= start_handed);
                assert(output.taken().take(start_taken.len() as int) =~= start_taken);
                if !last {
                    assert(now[now.len() - 1] == handed_at(rules, events, k));
                    assert(now =~= start_handed + Seq::new(
                        (k + 1) as nat,
                        |j: int| handed_at(rules, events, j),
                    ));
                }
            }
            if let Err(error) = answer {
                return Err(UpdateError::Emit(error));
            }
            proof {
                assert(output.taken() =~= start_taken + Seq::new((k + 1) as nat, |j: int| true));
            }
            if let XmlItem::EndDocument = event.item() {
                return Ok(count);
            }
            proof {
                k = k + 1;
            }
        }
    }
}

impl AutounattendUpdater {
    /// Runs one pass over a document given as its events, and returns the
    /// rewritten events with the number of texts replaced.
    ///
    /// The pass fails at the first character data on which two rules are
    /// armed, and names the two lowest of them.
    pub fn rewrite_events(&self, items: Vec<XmlItem>) -> (result: Result<
        (Vec<XmlItem>, usize),
        Overlap,
    >)
        ensures
            match result {
                Ok((output, count)) => {
                    &&& no_overlap_before(self@, items.deep_view(), items.len() as int)
                    &&& output.deep_view() == rewritten(self@, items.deep_view())
                    &&& count == substitutions_before(
                        self@,
                        items.deep_view(),
                        items.len() as int,
                    )
                },
                Err(overlap) => exists|k: int|
                    {
                        &&& 0 <= k < items.len()
                        &&& no_overlap_before(self@, items.deep_view(), k)
                        &&& #[trigger] decision_at(self@, items.deep_view(), k)
                            == (Decision::Overlap {
                            first: overlap.first as int,
                            second: overlap.second as int,
                        })
                    },
            },
    {
        let ghost rules = self@;
        let ghost given = items.deep_view();
        let mut output = items;
        let mut state = self.start();
        let mut count: usize = 0;
        let mut k: usize = 0;
        while k < output.len()
            invariant
                rules == self@,
                given == items.deep_view(),
                output.len() == given.len(),
                k <= output.len(),
                state@ == depths_before(rules, given, k as nat),
                depths_fit(rules, state@),
                count == substitutions_before(rules, given, k as int),
                count <= k,
                no_overlap_before(rules, given, k as int),
                forall|j: int|
                    0 <= j < k ==> (#[trigger] output.deep_view()[j]) == item_written(
                        written_at(rules, given, j),
                    ),
                forall|j: int|
                    k <= j < given.len() ==> (#[trigger] output.deep_view()[j]) == given[j],
            decreases output.len() - k,
        {
            assert(output.deep_view()[k as int] == output[k as int].deep_view());
            let ghost before = output.deep_view();
            let ghost held = output@;
            match self.process_event(&mut state, &output[k]) {
                Ok(Action::Forward) => {},
                Ok(Action::Replace(text)) => {
                    output.set(k, XmlItem::Characters(text));
                    count += 1;
                    assert forall|j: int| 0 <= j < given.len() && j != k implies (
                    #[trigger] output.deep_view()[j]) == before[j] by {
                        assert(output@[j] == held[j]);
                    }
                    assert(output.deep_view()[k as int] == output[k as int].deep_view());
                },
                Err(overlap) => {
                    return Err(overlap);
                },
            }
            k += 1;
        }
        assert(output.deep_view() =~= rewritten(rules, given));
        Ok((output, count))
    }
}

} // verus!
