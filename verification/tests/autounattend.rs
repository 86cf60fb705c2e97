use wimsy::autounattend::{
    driver_path_rule, image_index_rule, replace_image_index, replace_version_in_driver_path,
    Action, AutounattendUpdater, MatchElement, Overlap, ReplacementRule, Transform, UpdateError,
    VirtioDriverVersion,
};
use wimsy::events::{XmlAttribute, XmlItem};
use wimsy::xml_stream::{XmlSink, XmlSource};

/// An answer file for installation under QEMU: one image index and six
/// driver paths.
const LINUX_TEMPLATE: &str = r#"<?xml version="1.0" encoding="utf-8"?>
<unattend xmlns="urn:schemas-microsoft-com:unattend">
  <!-- Settings for the Windows PE pass. -->
  <settings pass="windowsPE">
    <component name="Microsoft-Windows-International-Core-WinPE" processorArchitecture="amd64" language="neutral">
      <InputLocale>en-US</InputLocale>
      <UILanguage>en-US</UILanguage>
    </component>
    <component name="Microsoft-Windows-Setup" processorArchitecture="amd64" language="neutral" xmlns:wcm="http://schemas.microsoft.com/WMIConfig/2002/State">
      <ImageInstall>
        <OSImage>
          <InstallFrom>
            <MetaData wcm:action="add">
              <Key>/IMAGE/INDEX</Key>
              <Value>4</Value>
            </MetaData>
          </InstallFrom>
          <InstallTo>
            <DiskID>0</DiskID>
            <PartitionID>4</PartitionID>
          </InstallTo>
        </OSImage>
      </ImageInstall>
      <UserData>
        <AcceptEula>true</AcceptEula>
      </UserData>
    </component>
    <component name="Microsoft-Windows-PnpCustomizationsWinPE" processorArchitecture="amd64" language="neutral" xmlns:wcm="http://schemas.microsoft.com/WMIConfig/2002/State">
      <DriverPaths>
        <PathAndCredentials wcm:action="add" wcm:keyValue="1">
          <Path>D:\viostor\2k22\amd64</Path>
        </PathAndCredentials>
      </DriverPaths>
    </component>
  </settings>
  <settings pass="offlineServicing">
    <component name="Microsoft-Windows-PnpCustomizationsNonWinPE" processorArchitecture="amd64" language="neutral" xmlns:wcm="http://schemas.microsoft.com/WMIConfig/2002/State">
      <DriverPaths>
        <PathAndCredentials wcm:action="add" wcm:keyValue="1">
          <Path>D:\NetKVM\2k22\amd64</Path>
        </PathAndCredentials>
        <PathAndCredentials wcm:action="add" wcm:keyValue="2">
          <Path>D:\viostor\2k22\amd64</Path>
        </PathAndCredentials>
        <PathAndCredentials wcm:action="add" wcm:keyValue="3">
          <Path>E:\NetKVM\2k22\amd64</Path>
        </PathAndCredentials>
        <PathAndCredentials wcm:action="add" wcm:keyValue="4">
          <Path>E:\viostor\2k22\amd64</Path>
        </PathAndCredentials>
        <PathAndCredentials wcm:action="add" wcm:keyValue="5">
          <Path>F:\NetKVM\2k22\amd64</Path>
        </PathAndCredentials>
        <PathAndCredentials wcm:action="add" wcm:keyValue="6">
          <Path>F:\viostor\2k22\amd64</Path>
        </PathAndCredentials>
      </DriverPaths>
    </component>
  </settings>
  <settings pass="specialize">
    <component name="Microsoft-Windows-Deployment" processorArchitecture="amd64" language="neutral">
      <RunSynchronous/>
    </component>
  </settings>
</unattend>
"#;

/// An answer file for installation from a repacked disk: one image index
/// and one driver path.
const ILLUMOS_TEMPLATE: &str = r#"<?xml version="1.0" encoding="utf-8"?>
<unattend xmlns="urn:schemas-microsoft-com:unattend">
  <settings pass="windowsPE">
    <component name="Microsoft-Windows-Setup" processorArchitecture="amd64" language="neutral" xmlns:wcm="http://schemas.microsoft.com/WMIConfig/2002/State">
      <ImageInstall>
        <OSImage>
          <InstallFrom>
            <Path>\\?\Volume{569CBD84-352D-44D9-B92D-BF25B852925B}\install.wim</Path>
            <MetaData wcm:action="add">
              <Key>/IMAGE/INDEX</Key>
              <Value>2</Value>
            </MetaData>
          </InstallFrom>
        </OSImage>
      </ImageInstall>
    </component>
  </settings>
  <settings pass="offlineServicing">
    <component name="Microsoft-Windows-PnpCustomizationsNonWinPE" processorArchitecture="amd64" language="neutral" xmlns:wcm="http://schemas.microsoft.com/WMIConfig/2002/State">
      <DriverPaths>
        <PathAndCredentials wcm:action="add" wcm:keyValue="1">
          <Path>C:\virtio-drivers</Path>
        </PathAndCredentials>
      </DriverPaths>
    </component>
  </settings>
</unattend>
"#;

/// One pass over `document`: the count, and the document written.
fn run(updater: &AutounattendUpdater, document: &str) -> (Result<usize, UpdateError>, Vec<u8>) {
    let mut sink = XmlSink::new();
    let result = updater.run_internal(XmlSource::new(document.as_bytes()), &mut sink);
    (result, sink.into_bytes())
}

/// The events of a document, with its texts.
fn events_of(document: &[u8]) -> Vec<xml::reader::XmlEvent> {
    let mut events = Vec::new();
    for event in xml::EventReader::new(document) {
        events.push(event.unwrap());
    }
    events
}

/// The texts of the elements named `name`, in document order.
fn texts_of(document: &[u8], name: &str) -> Vec<String> {
    let mut texts = Vec::new();
    let mut open: Vec<String> = Vec::new();
    for event in events_of(document) {
        match event {
            xml::reader::XmlEvent::StartElement { name, .. } => open.push(name.local_name),
            xml::reader::XmlEvent::EndElement { .. } => {
                open.pop();
            }
            xml::reader::XmlEvent::Characters(text) => {
                if open.last().map(|n| n.as_str()) == Some(name) {
                    texts.push(text);
                }
            }
            _ => {}
        }
    }
    texts
}

#[test]
fn replace_illumos_unattend() {
    let updater = AutounattendUpdater::new(Some(1), Some(VirtioDriverVersion::Server2016));

    let original = ILLUMOS_TEMPLATE;

    let reader = XmlSource::new(original.as_bytes());
    let mut writer = XmlSink::new();

    assert_eq!(updater.run_internal(reader, &mut writer).unwrap(), 2);
}

#[test]
fn replace_linux_unattend() {
    let updater = AutounattendUpdater::new(Some(1), Some(VirtioDriverVersion::Server2016));

    let original = LINUX_TEMPLATE;

    let reader = XmlSource::new(original.as_bytes());
    let mut writer = XmlSink::new();

    assert_eq!(updater.run_internal(reader, &mut writer).unwrap(), 7);
}

#[test]
fn counts_follow_the_active_rules() {
    let index_only = AutounattendUpdater::new(Some(3), None);
    let driver_only = AutounattendUpdater::new(None, Some(VirtioDriverVersion::Server2019));
    let both = AutounattendUpdater::new(Some(3), Some(VirtioDriverVersion::Server2019));
    let none = AutounattendUpdater::new(None, None);
    assert_eq!(run(&index_only, LINUX_TEMPLATE).0.unwrap(), 1);
    assert_eq!(run(&driver_only, LINUX_TEMPLATE).0.unwrap(), 6);
    assert_eq!(run(&both, LINUX_TEMPLATE).0.unwrap(), 7);
    assert_eq!(run(&none, LINUX_TEMPLATE).0.unwrap(), 0);
    assert_eq!(index_only.rule_count(), 1);
    assert_eq!(both.rule_count(), 2);
    assert_eq!(none.rule_count(), 0);
}

#[test]
fn driver_rule_counts_even_when_the_version_is_the_templates() {
    let updater = AutounattendUpdater::new(None, Some(VirtioDriverVersion::Server2022));
    let (result, output) = run(&updater, LINUX_TEMPLATE);
    assert_eq!(result.unwrap(), 6);
    assert_eq!(texts_of(&output, "Path"), texts_of(LINUX_TEMPLATE.as_bytes(), "Path"));
}

#[test]
fn index_and_driver_paths_are_rewritten() {
    let template = r#"<unattend xmlns:wcm="http://schemas.microsoft.com/WMIConfig/2002/State">
  <settings pass="windowsPE">
    <component name="Microsoft-Windows-Setup">
      <ImageInstall><OSImage><InstallFrom>
        <MetaData wcm:action="add"><Key>/IMAGE/INDEX</Key><Value>4</Value></MetaData>
      </InstallFrom></OSImage></ImageInstall>
    </component>
  </settings>
  <settings pass="offlineServicing">
    <component name="Microsoft-Windows-PnpCustomizationsNonWinPE">
      <DriverPaths>
        <PathAndCredentials wcm:action="add" wcm:keyValue="1"><Path>D:\NetKVM\2k22\amd64</Path></PathAndCredentials>
        <PathAndCredentials wcm:action="add" wcm:keyValue="2"><Path>D:\viostor\2k22\amd64</Path></PathAndCredentials>
      </DriverPaths>
    </component>
  </settings>
</unattend>"#;
    let updater = AutounattendUpdater::new(Some(1), Some(VirtioDriverVersion::Server2016));
    let (result, output) = run(&updater, template);
    assert_eq!(result.unwrap(), 3);
    assert_eq!(texts_of(&output, "Value"), vec!["1".to_string()]);
    assert_eq!(texts_of(&output, "Key"), vec!["/IMAGE/INDEX".to_string()]);
    let paths = texts_of(&output, "Path");
    assert_eq!(
        paths,
        vec![r"D:\NetKVM\2k16\amd64".to_string(), r"D:\viostor\2k16\amd64".to_string()]
    );
    for path in paths {
        assert!(path.ends_with(r"\2k16\amd64"));
    }
}

#[test]
fn without_rules_the_events_come_out_as_they_went_in() {
    let updater = AutounattendUpdater::new(None, None);
    let (result, output) = run(&updater, LINUX_TEMPLATE);
    assert_eq!(result.unwrap(), 0);
    assert_eq!(events_of(&output), events_of(LINUX_TEMPLATE.as_bytes()));
}

#[test]
fn only_the_texts_under_armed_rules_change() {
    let updater = AutounattendUpdater::new(Some(9), Some(VirtioDriverVersion::Server2019));
    let (result, output) = run(&updater, LINUX_TEMPLATE);
    assert_eq!(result.unwrap(), 7);
    let before = events_of(LINUX_TEMPLATE.as_bytes());
    let after = events_of(&output);
    assert_eq!(before.len(), after.len());
    let mut changed = 0;
    for (old, new) in before.iter().zip(after.iter()) {
        if old != new {
            changed += 1;
            match (old, new) {
                (xml::reader::XmlEvent::Characters(old), xml::reader::XmlEvent::Characters(new)) => {
                    assert!(new == "9" || *new == old.replace(r"\2k22\", r"\2k19\"));
                }
                _ => panic!("an event other than character data changed"),
            }
        }
    }
    assert_eq!(changed, 7);
    // The driver path of the Windows PE pass lies on another path and stays.
    assert_eq!(texts_of(&output, "Path")[0], r"D:\viostor\2k22\amd64");
    assert_eq!(texts_of(&output, "PartitionID"), vec!["4".to_string()]);
}

#[test]
fn a_second_pass_with_the_same_index_changes_nothing() {
    let updater = AutounattendUpdater::new(Some(7), None);
    let (first, once) = run(&updater, LINUX_TEMPLATE);
    assert_eq!(first.unwrap(), 1);
    let once_text = String::from_utf8(once.clone()).unwrap();
    let (second, twice) = run(&updater, &once_text);
    assert_eq!(second.unwrap(), 1);
    assert_eq!(texts_of(&twice, "Value"), vec!["7".to_string()]);
    assert_eq!(events_of(&twice), events_of(&once));
}

#[test]
fn a_path_without_the_placeholder_is_kept() {
    let updater = AutounattendUpdater::new(None, Some(VirtioDriverVersion::Server2016));
    let (result, output) = run(&updater, ILLUMOS_TEMPLATE);
    assert_eq!(result.unwrap(), 1);
    assert_eq!(
        texts_of(&output, "Path"),
        vec![
            r"\\?\Volume{569CBD84-352D-44D9-B92D-BF25B852925B}\install.wim".to_string(),
            r"C:\virtio-drivers".to_string()
        ]
    );
    assert_eq!(events_of(&output), events_of(ILLUMOS_TEMPLATE.as_bytes()));
}

#[test]
fn two_rules_with_the_same_path_stop_the_pass() {
    let updater = AutounattendUpdater::from_rules(vec![image_index_rule(1), image_index_rule(2)]);
    let (result, output) = run(&updater, LINUX_TEMPLATE);
    match result {
        Err(UpdateError::Overlap(overlap)) => {
            assert_eq!(overlap, Overlap { first: 0, second: 1 });
        }
        other => panic!("the pass did not stop on the overlap: {:?}", other),
    }
    // Nothing of the contested text has been written.
    let written = String::from_utf8(output).unwrap();
    assert!(written.contains("/IMAGE/INDEX"));
    assert!(!written.contains("<Value>1"));
    assert!(!written.contains("<Value>2"));
    assert!(!written.contains("</unattend>"));
}

#[test]
fn rules_with_the_same_path_pass_a_document_without_the_element() {
    let updater = AutounattendUpdater::from_rules(vec![image_index_rule(1), image_index_rule(2)]);
    let (result, _) = run(&updater, "<unattend><settings pass=\"windowsPE\">text</settings></unattend>");
    assert_eq!(result.unwrap(), 0);
}

#[test]
fn three_armed_rules_name_the_two_lowest() {
    let rule = |index: u32| {
        ReplacementRule::new(vec![MatchElement::plain("a")], Transform::ImageIndex(index))
    };
    let other = ReplacementRule::new(vec![MatchElement::plain("b")], Transform::ImageIndex(0));
    let updater = AutounattendUpdater::from_rules(vec![other, rule(1), rule(2), rule(3)]);
    let result = updater.rewrite_events(vec![
        XmlItem::start("a"),
        XmlItem::characters("x"),
        XmlItem::end("a"),
    ]);
    assert_eq!(result.unwrap_err(), Overlap { first: 1, second: 2 });
}

#[test]
fn a_document_that_does_not_parse_is_an_error() {
    let updater = AutounattendUpdater::new(Some(1), None);
    let (result, _) = run(&updater, "<unattend><settings></unattend>");
    assert!(matches!(result, Err(UpdateError::Parse(_))));
    let (result, _) = run(&updater, "");
    assert!(matches!(result, Err(UpdateError::Parse(_))));
    let (result, _) = run(&updater, "<unattend>");
    assert!(matches!(result, Err(UpdateError::Parse(_))));
}

#[test]
fn transforms_write_what_they_should() {
    assert_eq!(replace_image_index("4", 1), "1");
    assert_eq!(replace_image_index("", 0), "0");
    assert_eq!(replace_image_index("anything", 4294967295), "4294967295");
    assert_eq!(replace_image_index("7", 1050), "1050");
    assert_eq!(
        replace_version_in_driver_path(r"D:\NetKVM\2k22\amd64", VirtioDriverVersion::Server2016),
        r"D:\NetKVM\2k16\amd64"
    );
    assert_eq!(
        replace_version_in_driver_path(r"D:\NetKVM\2k22\amd64", VirtioDriverVersion::Server2019),
        r"D:\NetKVM\2k19\amd64"
    );
    assert_eq!(
        replace_version_in_driver_path(r"D:\NetKVM\2k22\amd64", VirtioDriverVersion::Server2022),
        r"D:\NetKVM\2k22\amd64"
    );
    assert_eq!(
        replace_version_in_driver_path(r"D:\NetKVM\2k19\amd64", VirtioDriverVersion::Server2016),
        r"D:\NetKVM\2k19\amd64"
    );
    assert_eq!(
        replace_version_in_driver_path(r"D:\2k22", VirtioDriverVersion::Server2016),
        r"D:\2k22"
    );
    // Occurrences are taken from the left and do not overlap.
    assert_eq!(
        replace_version_in_driver_path(r"\2k22\2k22\", VirtioDriverVersion::Server2016),
        r"\2k16\2k22\"
    );
    assert_eq!(
        replace_version_in_driver_path(r"\2k22\\2k22\", VirtioDriverVersion::Server2016),
        r"\2k16\\2k16\"
    );
    assert_eq!(
        replace_version_in_driver_path(r"D:\2k22\x", VirtioDriverVersion::Server2019),
        r"D:\2k22\x".replace(r"\2k22\", r"\2k19\")
    );
    assert_eq!(Transform::ImageIndex(12).apply("3"), "12");
    assert_eq!(
        Transform::DriverVersion(VirtioDriverVersion::Server2016).apply(r"a\2k22\b"),
        r"a\2k16\b"
    );
}

#[test]
fn a_rule_is_armed_at_the_end_of_its_path() {
    let rule = image_index_rule(1);
    assert_eq!(rule.elements.len(), 8);
    assert!(rule.is_armed(8));
    assert!(!rule.is_armed(7));
    assert!(!rule.is_armed(0));
    let rule = driver_path_rule(VirtioDriverVersion::Server2019);
    assert_eq!(rule.elements.len(), 5);
    assert!(rule.is_armed(5));
    assert!(!rule.is_armed(4));
    assert_eq!(rule.transform, Transform::DriverVersion(VirtioDriverVersion::Server2019));
    assert_eq!(rule.elements[1].name, "settings");
    assert_eq!(rule.elements[1].attributes[0].name, "pass");
    assert_eq!(rule.elements[1].attributes[0].value, "offlineServicing");
    assert_eq!(rule.elements[3].name, "PathAndCredentials");
    let empty = ReplacementRule::new(vec![], Transform::ImageIndex(5));
    assert!(empty.is_armed(0));
}

/// The depths of all rules of `updater` after `items`.
fn depths_after(updater: &AutounattendUpdater, items: &[XmlItem]) -> Vec<usize> {
    let mut state = updater.start();
    for item in items {
        updater.process_event(&mut state, item).unwrap();
    }
    (0..updater.rule_count()).map(|rule| state.depth(rule)).collect()
}

fn keyed(name: &str, key: &str, value: &str) -> XmlItem {
    XmlItem::start_with(name, vec![XmlAttribute::new(key, value)])
}

#[test]
fn depths_move_with_matching_starts_and_ends() {
    let updater = AutounattendUpdater::new(Some(1), Some(VirtioDriverVersion::Server2016));
    assert_eq!(depths_after(&updater, &[]), vec![0, 0]);
    assert_eq!(depths_after(&updater, &[XmlItem::start("unattend")]), vec![1, 1]);
    // A start that does not match leaves the depth where it is.
    assert_eq!(depths_after(&updater, &[XmlItem::start("other")]), vec![0, 0]);
    assert_eq!(
        depths_after(&updater, &[XmlItem::start("unattend"), XmlItem::start("settings")]),
        vec![1, 1]
    );
    assert_eq!(
        depths_after(&updater, &[XmlItem::start("unattend"), keyed("settings", "pass", "windowsPE")]),
        vec![2, 1]
    );
    assert_eq!(
        depths_after(
            &updater,
            &[XmlItem::start("unattend"), keyed("settings", "pass", "offlineServicing")]
        ),
        vec![1, 2]
    );
    // Further attributes do not matter; a wrong value does.
    let many = XmlItem::start_with(
        "settings",
        vec![XmlAttribute::new("x", "y"), XmlAttribute::new("pass", "windowsPE")],
    );
    assert_eq!(depths_after(&updater, &[XmlItem::start("unattend"), many]), vec![2, 1]);
    assert_eq!(
        depths_after(&updater, &[XmlItem::start("unattend"), keyed("settings", "pass", "windowspe")]),
        vec![1, 1]
    );
    assert_eq!(
        depths_after(&updater, &[XmlItem::start("unattend"), keyed("settings", "windowsPE", "pass")]),
        vec![1, 1]
    );
    // An end moves down only the rules whose last matched step has its name.
    assert_eq!(
        depths_after(
            &updater,
            &[
                XmlItem::start("unattend"),
                keyed("settings", "pass", "windowsPE"),
                XmlItem::end("settings")
            ]
        ),
        vec![1, 1]
    );
    assert_eq!(
        depths_after(
            &updater,
            &[
                XmlItem::start("unattend"),
                keyed("settings", "pass", "windowsPE"),
                XmlItem::end("unattend")
            ]
        ),
        vec![2, 0]
    );
    // An end at depth zero moves nothing.
    assert_eq!(depths_after(&updater, &[XmlItem::end("unattend")]), vec![0, 0]);
    // Other events move nothing.
    assert_eq!(
        depths_after(
            &updater,
            &[
                XmlItem::start("unattend"),
                XmlItem::StartDocument,
                XmlItem::ProcessingInstruction,
                XmlItem::Comment("unattend".to_string()),
                XmlItem::CData("unattend".to_string()),
                XmlItem::Whitespace("  ".to_string()),
                XmlItem::EndDocument,
                XmlItem::characters("x"),
            ]
        ),
        vec![1, 1]
    );
}

#[test]
fn an_armed_rule_is_not_moved_by_a_start() {
    let rule = ReplacementRule::new(vec![MatchElement::plain("a")], Transform::ImageIndex(5));
    let updater = AutounattendUpdater::from_rules(vec![rule]);
    let items = vec![
        XmlItem::start("a"),
        XmlItem::characters("one"),
        XmlItem::start("a"),
        XmlItem::characters("two"),
        XmlItem::end("a"),
        XmlItem::characters("three"),
        XmlItem::end("a"),
        XmlItem::characters("four"),
    ];
    assert_eq!(depths_after(&updater, &items[..3]), vec![1]);
    // The depth follows names, not nesting: the inner end disarms the rule.
    assert_eq!(depths_after(&updater, &items[..5]), vec![0]);
    let (output, count) = updater.rewrite_events(items).unwrap();
    assert_eq!(count, 2);
    let texts: Vec<String> = output
        .iter()
        .filter_map(|item| match item {
            XmlItem::Characters(text) => Some(text.clone()),
            _ => None,
        })
        .collect();
    assert_eq!(texts, vec!["5", "5", "three", "four"]);
}

#[test]
fn a_rule_without_steps_is_always_armed() {
    let rule = ReplacementRule::new(vec![], Transform::ImageIndex(8));
    let updater = AutounattendUpdater::from_rules(vec![rule]);
    let (output, count) = updater
        .rewrite_events(vec![
            XmlItem::characters("before"),
            XmlItem::start("a"),
            XmlItem::characters("inside"),
            XmlItem::end("a"),
        ])
        .unwrap();
    assert_eq!(count, 2);
    assert!(matches!(&output[0], XmlItem::Characters(text) if text == "8"));
    assert!(matches!(&output[2], XmlItem::Characters(text) if text == "8"));
}

#[test]
fn process_event_says_what_to_write() {
    let updater = AutounattendUpdater::new(None, Some(VirtioDriverVersion::Server2016));
    let mut state = updater.start();
    let path = [
        XmlItem::start("unattend"),
        keyed("settings", "pass", "offlineServicing"),
        keyed("component", "name", "Microsoft-Windows-PnpCustomizationsNonWinPE"),
        XmlItem::start("DriverPaths"),
        keyed("PathAndCredentials", "action", "add"),
    ];
    for item in &path {
        assert!(matches!(updater.process_event(&mut state, item), Ok(Action::Forward)));
        assert!(matches!(
            updater.process_event(&mut state, &XmlItem::characters(r"x\2k22\y")),
            Ok(Action::Forward)
        ));
    }
    assert_eq!(state.depth(0), 4);
    assert!(matches!(updater.process_event(&mut state, &XmlItem::start("Path")), Ok(Action::Forward)));
    assert_eq!(state.depth(0), 5);
    match updater.process_event(&mut state, &XmlItem::characters(r"x\2k22\y")) {
        Ok(Action::Replace(text)) => assert_eq!(text, r"x\2k16\y"),
        other => panic!("expected a replacement, got {:?}", other),
    }
    assert_eq!(state.depth(0), 5);
    // Only character data is replaced: white space, CDATA and comments under
    // an armed rule are forwarded.
    for item in [
        XmlItem::Whitespace(r" \2k22\ ".to_string()),
        XmlItem::CData(r"x\2k22\y".to_string()),
        XmlItem::Comment(r"x\2k22\y".to_string()),
        XmlItem::ProcessingInstruction,
    ] {
        assert!(matches!(updater.process_event(&mut state, &item), Ok(Action::Forward)));
    }
    assert_eq!(state.depth(0), 5);
    assert!(matches!(updater.process_event(&mut state, &XmlItem::end("Path")), Ok(Action::Forward)));
    assert_eq!(state.depth(0), 4);
}

#[test]
fn events_are_rewritten_like_documents() {
    let updater = AutounattendUpdater::new(Some(1), Some(VirtioDriverVersion::Server2016));
    let items = vec![
        XmlItem::start("unattend"),
        keyed("settings", "pass", "windowsPE"),
        keyed("component", "name", "Microsoft-Windows-Setup"),
        XmlItem::start("ImageInstall"),
        XmlItem::start("OSImage"),
        XmlItem::start("InstallFrom"),
        keyed("MetaData", "action", "add"),
        XmlItem::start("Key"),
        XmlItem::characters("/IMAGE/INDEX"),
        XmlItem::end("Key"),
        XmlItem::start("Value"),
        XmlItem::characters("4"),
        XmlItem::end("Value"),
        XmlItem::end("MetaData"),
        XmlItem::end("InstallFrom"),
        XmlItem::end("OSImage"),
        XmlItem::end("ImageInstall"),
        XmlItem::end("component"),
        XmlItem::end("settings"),
        keyed("settings", "pass", "offlineServicing"),
        keyed("component", "name", "Microsoft-Windows-PnpCustomizationsNonWinPE"),
        XmlItem::start("DriverPaths"),
        keyed("PathAndCredentials", "action", "add"),
        XmlItem::start("Path"),
        XmlItem::characters(r"D:\NetKVM\2k22\amd64"),
        XmlItem::end("Path"),
        XmlItem::end("PathAndCredentials"),
        keyed("PathAndCredentials", "action", "add"),
        XmlItem::start("Path"),
        XmlItem::characters(r"D:\viostor\2k22\amd64"),
        XmlItem::end("Path"),
        XmlItem::end("PathAndCredentials"),
        XmlItem::end("DriverPaths"),
        XmlItem::end("component"),
        XmlItem::end("settings"),
        XmlItem::end("unattend"),
        XmlItem::EndDocument,
    ];
    let (output, count) = updater.rewrite_events(items).unwrap();
    assert_eq!(count, 3);
    assert_eq!(output.len(), 37);
    assert!(matches!(&output[8], XmlItem::Characters(text) if text == "/IMAGE/INDEX"));
    assert!(matches!(&output[11], XmlItem::Characters(text) if text == "1"));
    assert!(matches!(&output[24], XmlItem::Characters(text) if text == r"D:\NetKVM\2k16\amd64"));
    assert!(matches!(&output[29], XmlItem::Characters(text) if text == r"D:\viostor\2k16\amd64"));
    assert!(matches!(&output[0], XmlItem::StartElement { name, attributes } if name == "unattend" && attributes.is_empty()));
    assert!(matches!(&output[1], XmlItem::StartElement { name, attributes }
        if name == "settings" && attributes.len() == 1 && attributes[0].value == "windowsPE"));
    assert!(matches!(&output[36], XmlItem::EndDocument));

    let empty = AutounattendUpdater::new(None, None);
    let (output, count) = empty.rewrite_events(Vec::new()).unwrap();
    assert_eq!((output.len(), count), (0, 0));
}

#[test]
fn a_new_sink_has_rendered_nothing() {
    assert!(XmlSink::new().into_bytes().is_empty());
}

#[test]
fn a_second_document_is_not_accepted_by_the_same_sink() {
    let updater = AutounattendUpdater::new(Some(1), None);
    let mut once = XmlSink::new();
    assert_eq!(
        updater.run_internal(XmlSource::new(ILLUMOS_TEMPLATE.as_bytes()), &mut once).unwrap(),
        1
    );
    let rendered = once.into_bytes();
    assert!(!rendered.is_empty());

    let mut twice = XmlSink::new();
    updater.run_internal(XmlSource::new(ILLUMOS_TEMPLATE.as_bytes()), &mut twice).unwrap();
    let result = updater.run_internal(XmlSource::new(ILLUMOS_TEMPLATE.as_bytes()), &mut twice);
    assert!(matches!(result, Err(UpdateError::Emit(_))));
    // What the sink had rendered stays at the start of what it holds.
    assert!(twice.into_bytes().starts_with(&rendered));
}

#[test]
fn white_space_and_cdata_under_an_armed_rule_are_not_replaced() {
    let document = "<unattend><settings pass=\"windowsPE\">\
        <component name=\"Microsoft-Windows-Setup\"><ImageInstall><OSImage><InstallFrom>\
        <MetaData action=\"add\"><Value>  </Value><Value><![CDATA[4]]></Value>\
        <Value><!-- 4 --></Value></MetaData>\
        </InstallFrom></OSImage></ImageInstall></component></settings></unattend>";
    let updater = AutounattendUpdater::new(Some(1), None);
    let (result, output) = run(&updater, document);
    assert_eq!(result.unwrap(), 0);
    assert_eq!(events_of(&output), events_of(document.as_bytes()));
    assert!(texts_of(&output, "Value").is_empty());

    let with_text = document.replace("<Value>  </Value>", "<Value> 4 </Value>");
    let (result, output) = run(&updater, &with_text);
    assert_eq!(result.unwrap(), 1);
    assert_eq!(texts_of(&output, "Value"), vec!["1".to_string()]);
}

#[test]
fn the_picture_of_each_kind_of_event_is_its_own() {
    let document = "<?xml version=\"1.0\"?><?pi data?><a x=\"1\"><!-- c --> <![CDATA[d]]>t</a>";
    let updater = AutounattendUpdater::from_rules(vec![ReplacementRule::new(
        vec![MatchElement::plain("a")],
        Transform::ImageIndex(7),
    )]);
    let (result, output) = run(&updater, document);
    // Of the five events inside the element only the text is replaced.
    assert_eq!(result.unwrap(), 1);
    let before = events_of(document.as_bytes());
    let after = events_of(&output);
    assert_eq!(before.len(), after.len());
    let changed: Vec<_> = before.iter().zip(after.iter()).filter(|(old, new)| old != new).collect();
    assert_eq!(changed.len(), 1);
    assert_eq!(changed[0].0, &xml::reader::XmlEvent::Characters("t".to_string()));
    assert_eq!(changed[0].1, &xml::reader::XmlEvent::Characters("7".to_string()));
}
