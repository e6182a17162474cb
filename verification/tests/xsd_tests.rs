use xsd_codegen::attribute_group::{AttributeGroup, Member};
use xsd_codegen::error::Error;
use xsd_codegen::group::Group;
use xsd_codegen::id::{EntryType, Id};
use xsd_codegen::sequence::{Member as SequenceMember, Sequence};
use xsd_codegen::xml::{parse_document, XmlNode};
use xsd_codegen::xsd::{Entry, Occurs, Xsd};

#[test]
fn parse_occurs() {
    let test_cases = vec![
        (
            r#"<xyz minOccurs="1"/>"#,
            Occurs {
                min_occurs: 1,
                max_occurs: Some(1),
            },
        ),
        (
            r#"<xyz maxOccurs="unbounded"/>"#,
            Occurs {
                min_occurs: 1,
                max_occurs: None,
            },
        ),
        (
            r#"<xyz/>"#,
            Occurs {
                min_occurs: 1,
                max_occurs: Some(1),
            },
        ),
        (
            r#"<xyz minOccurs="2" maxOccurs="3"/>"#,
            Occurs {
                min_occurs: 2,
                max_occurs: Some(3),
            },
        ),
    ];

    for (xml, want) in test_cases {
        let root = parse_document(xml).unwrap();
        let got = Occurs::from_xml(&root).unwrap();
        assert_eq!(got, want)
    }
}

#[test]
fn parse_occurs_err() {
    let test_cases = vec![
        r#"<xyz minOccurs="10" maxOccurs="1"/>"#,
        r#"<xyz maxOccurs="unexpectedString"/>"#,
    ];

    for xml in test_cases {
        let root = parse_document(xml).unwrap();
        assert!(Occurs::from_xml(&root).is_err());
    }
}

#[test]
fn parse_occurs_inverted_bounds_error() {
    let root = parse_document(r#"<xyz minOccurs="10" maxOccurs="1"/>"#).unwrap();
    match Occurs::from_xml(&root) {
        Err(Error::InvalidOccurs {
            min_occurs,
            max_occurs,
        }) => {
            assert_eq!(min_occurs, 10);
            assert_eq!(max_occurs, 1);
        }
        other => panic!("expected an InvalidOccurs error, got {:?}", other),
    }
}

#[test]
fn parse_occurs_bad_number_error() {
    let root = parse_document(r#"<xyz maxOccurs="unexpectedString"/>"#).unwrap();
    match Occurs::from_xml(&root) {
        Err(Error::InvalidNumber { value }) => assert_eq!(value, "unexpectedString"),
        other => panic!("expected an InvalidNumber error, got {:?}", other),
    }
}

#[test]
fn group_parse() {
    let xml_str = r#"
	<xs:group name="editorial">
		<xs:annotation>
			<xs:documentation>The editorial group</xs:documentation>
		</xs:annotation>
	</xs:group>"#;
    let root = parse_document(xml_str).unwrap();
    let g = Group::from_xml(&root, 7).unwrap();
    assert_eq!(g.index, 7);
    assert_eq!(g.id.display_string(), "editorial (group)");
    assert_eq!(g.documentation(), "The editorial group");
}

#[test]
fn parse_attribute_type_test() {
    let xml_str = r#"
    	<xs:attributeGroup name="bend-sound">
		<xs:annotation>
			<xs:documentation>blargh</xs:documentation>
		</xs:annotation>
		<xs:attribute name="accelerate" type="yes-no"/>
		<xs:attribute name="beats" type="trill-beats" use="required"/>
		<xs:attribute name="first-beat" type="percent"/>
		<xs:attribute name="last-beat" type="percent"/>
	</xs:attributeGroup>"#;
    let root = parse_document(xml_str).unwrap();
    let want_index: u64 = 3;
    let ag = AttributeGroup::from_xml(&root, want_index).unwrap();
    assert_eq!(ag.index, want_index);
    let got_id = ag.id.display_string();
    let want_id = "bend-sound (attributeGroup)".to_owned();
    assert_eq!(got_id, want_id);
    let got_doc = ag.documentation();
    let want_doc = "blargh";
    assert_eq!(got_doc, want_doc);
    assert_eq!(ag.members.len(), 4);
    let member = ag.members.get(0).unwrap();
    match member {
        Member::AttributeType(ar) => {
            assert_eq!(ar.name.as_str(), "accelerate");
            assert_eq!(ar.type_.as_str(), "yes-no");
            assert!(!ar.required);
        }
        _ => panic!("expected 'AttributeRef'"),
    }
    let member = ag.members.get(1).unwrap();
    match member {
        Member::AttributeType(ar) => {
            assert_eq!(ar.name.as_str(), "beats");
            assert_eq!(ar.type_.as_str(), "trill-beats");
            assert!(ar.required);
        }
        _ => panic!("expected 'AttributeRef'"),
    }
}

#[test]
fn parse_group_ref() {
    let xml_str = r#"
	<xs:attributeGroup name="image-attributes">
		<xs:annotation>
			<xs:documentation>flerbin</xs:documentation>
		</xs:annotation>
		<xs:attribute name="source" type="xs:anyURI" use="required"/>
		<xs:attribute name="type" type="xs:token" use="required"/>
		<xs:attributeGroup ref="position"/>
		<xs:attributeGroup ref="halign"/>
		<xs:attributeGroup ref="valign-image"/>
	</xs:attributeGroup>"#;
    let root = parse_document(xml_str).unwrap();
    let want_index: u64 = 3;
    let ag = AttributeGroup::from_xml(&root, want_index).unwrap();
    assert_eq!(ag.index, want_index);
    let got_id = ag.id.display_string();
    let want_id = "image-attributes (attributeGroup)".to_owned();
    assert_eq!(got_id, want_id);
    let got_doc = ag.documentation();
    let want_doc = "flerbin";
    assert_eq!(got_doc, want_doc);
    assert_eq!(ag.members.len(), 5);
    let member = ag.members.get(0).unwrap();
    match member {
        Member::AttributeType(ar) => {
            assert_eq!(ar.name.as_str(), "source");
            assert_eq!(ar.type_.as_str(), "xs:anyURI");
            assert!(ar.required);
        }
        _ => panic!("expected 'AttributeRef'"),
    }
    let member = ag.members.get(2).unwrap();
    match member {
        Member::AttributeGroupRef(agr) => {
            assert_eq!(agr.ref_.as_str(), "position");
        }
        _ => panic!("expected 'AttributeGroupRef'"),
    }
}

#[test]
fn parse_attribute_ref_members() {
    let xml_str = r#"
	<xs:attributeGroup name="link-attributes">
		<xs:attribute ref="xlink:href" use="required"/>
		<xs:attribute ref="xlink:show" default="replace"/>
	</xs:attributeGroup>"#;
    let root = parse_document(xml_str).unwrap();
    let ag = AttributeGroup::from_xml(&root, 0).unwrap();
    assert_eq!(ag.members.len(), 2);
    match ag.members.get(0).unwrap() {
        Member::AttributeRef(ar) => {
            assert_eq!(ar.ref_.as_str(), "xlink:href");
            assert!(ar.required);
            assert!(ar.default.is_none());
        }
        _ => panic!("expected 'AttributeRef'"),
    }
    match ag.members.get(1).unwrap() {
        Member::AttributeRef(ar) => {
            assert_eq!(ar.ref_.as_str(), "xlink:show");
            assert!(!ar.required);
            assert_eq!(ar.default.as_deref(), Some("replace"));
        }
        _ => panic!("expected 'AttributeRef'"),
    }
}

#[test]
fn sequence_parse() {
    let xml_str = r#"
    <xs:sequence>
		<xs:element name="identification" type="identification" minOccurs="0"/>
		<xs:element name="part-name" type="part-name"/>
		<xs:element name="part-name-display" type="name-display" minOccurs="0"/>
		<xs:element name="part-abbreviation" type="part-name" minOccurs="0"/>
		<xs:element name="part-abbreviation-display" type="name-display" minOccurs="0"/>
		<xs:element name="group" type="xs:string" minOccurs="0" maxOccurs="unbounded">
			<xs:annotation>
				<xs:documentation>flerp floop fleep flop</xs:documentation>
			</xs:annotation>
		</xs:element>
		<xs:element name="score-instrument" type="score-instrument" minOccurs="0" maxOccurs="unbounded"/>
		<xs:sequence minOccurs="0" maxOccurs="unbounded">
			<xs:element name="midi-device" type="midi-device" minOccurs="0"/>
			<xs:element name="midi-instrument" type="midi-instrument" minOccurs="0"/>
		</xs:sequence>
	</xs:sequence>"#;
    let root = parse_document(xml_str).unwrap();
    let want_index: u64 = 3;
    let seq = Sequence::from_xml(&root, want_index).unwrap();
    let got_id = seq.id.display_string();
    let want_id = "sequence:3";
    assert_eq!(got_id.as_str(), want_id);
    let got_doc = seq.documentation();
    let want_doc = "";
    assert_eq!(got_doc, want_doc);
    assert_eq!(
        seq.occurs,
        Occurs {
            min_occurs: 1,
            max_occurs: Some(1),
        }
    );
    assert_eq!(seq.members.len(), 8);
    match seq.members.get(5).unwrap() {
        SequenceMember::Choice(_) => panic!("expecting '{}', got '{}'", "Element", "Choice"),
        SequenceMember::Element(_) => {}
        SequenceMember::Group(_) => panic!("expecting '{}', got '{}'", "Element", "Group"),
        SequenceMember::Sequence(_) => panic!("expecting '{}', got '{}'", "Element", "Sequence"),
    };
    match seq.members.get(7).unwrap() {
        SequenceMember::Choice(_) => panic!("expecting '{}', got '{}'", "Sequence", "Choice"),
        SequenceMember::Element(_e) => panic!("expecting '{}', got '{}'", "Sequence", "Element"),
        SequenceMember::Group(_) => panic!("expecting '{}', got '{}'", "Sequence", "Group"),
        SequenceMember::Sequence(_) => {}
    };
}

fn group_entry(name: &str, index: u64) -> Entry {
    Entry::Group(Group {
        id: Id {
            entry_type: EntryType::Group,
            name: name.to_owned(),
        },
        index,
        annotation: None,
    })
}

#[test]
fn container_add_then_find_returns_the_entry() {
    let mut xsd = Xsd::new("xs");
    xsd.add_entry(group_entry("alpha", 0)).unwrap();
    xsd.add_entry(group_entry("beta", 1)).unwrap();
    let id = Id {
        entry_type: EntryType::Group,
        name: "beta".to_owned(),
    };
    let found = xsd.find(&id).unwrap();
    assert_eq!(found.id().display_string(), "beta (group)");
    match found {
        Entry::Group(g) => assert_eq!(g.index, 1),
        _ => panic!("expected a group entry"),
    }
}

#[test]
fn container_remove_absent_identity_fails() {
    let mut xsd = Xsd::new("xs");
    xsd.add_entry(group_entry("alpha", 0)).unwrap();
    let id = Id {
        entry_type: EntryType::Group,
        name: "missing".to_owned(),
    };
    match xsd.remove(&id) {
        Err(Error::NotFound { name }) => assert_eq!(name, "missing (group)"),
        other => panic!("expected a NotFound error, got {:?}", other),
    }
    assert_eq!(xsd.entries().len(), 1);
}

#[test]
fn container_remove_takes_one_and_keeps_order() {
    let mut xsd = Xsd::new("xs");
    xsd.add_entry(group_entry("alpha", 0)).unwrap();
    xsd.add_entry(group_entry("beta", 1)).unwrap();
    xsd.add_entry(group_entry("gamma", 2)).unwrap();
    let id = Id {
        entry_type: EntryType::Group,
        name: "beta".to_owned(),
    };
    let removed = xsd.remove(&id).unwrap();
    assert_eq!(removed.id().display_string(), "beta (group)");
    let names: Vec<String> = xsd
        .entries()
        .iter()
        .map(|e| e.id().display_string())
        .collect();
    assert_eq!(names, vec!["alpha (group)", "gamma (group)"]);
}

#[test]
fn container_find_misses_on_different_kind() {
    let mut xsd = Xsd::new("xs");
    xsd.add_entry(group_entry("alpha", 0)).unwrap();
    let id = Id {
        entry_type: EntryType::SimpleType,
        name: "alpha".to_owned(),
    };
    assert!(xsd.find(&id).is_err());
}

#[test]
fn schema_parse_collects_entries_in_document_order() {
    let xml_str = r#"
    <xs:schema xmlns:xs="http://www.w3.org/2001/XMLSchema">
        <xs:simpleType name="above-below"/>
        <xs:group name="editorial"/>
        <xs:import namespace="http://www.w3.org/XML/1998/namespace"/>
    </xs:schema>"#;
    let xsd = Xsd::load_str(xml_str).unwrap();
    assert_eq!(xsd.prefix(), "xs");
    let names: Vec<String> = xsd
        .entries()
        .iter()
        .map(|e| e.id().display_string())
        .collect();
    assert_eq!(
        names,
        vec![
            "above-below (simpleType)",
            "editorial (group)",
            "http://www.w3.org/XML/1998/namespace (import)",
        ]
    );
}

#[test]
fn schema_without_prefix_fails_hard() {
    let xml_str = r#"<schema xmlns="http://www.w3.org/2001/XMLSchema"/>"#;
    match Xsd::load_str(xml_str) {
        Err(Error::EmptyPrefix) => {}
        other => panic!("expected an EmptyPrefix error, got {:?}", other),
    }
}

#[test]
fn schema_with_wrong_root_tag_fails() {
    let xml_str = r#"<xs:wrong xmlns:xs="http://www.w3.org/2001/XMLSchema"/>"#;
    match Xsd::load_str(xml_str) {
        Err(Error::UnexpectedNode { expected, actual }) => {
            assert_eq!(expected, "schema");
            assert_eq!(actual, "wrong");
        }
        other => panic!("expected an UnexpectedNode error, got {:?}", other),
    }
}

#[test]
fn malformed_document_fails_as_io() {
    match Xsd::load_str("this is not xml <<<") {
        Err(Error::Io { .. }) => {}
        other => panic!("expected an Io error, got {:?}", other),
    }
}

#[test]
fn double_gt_document_is_refused_up_front() {
    for xml_str in ["<a></a>>", "<r><a/>></r>"] {
        match Xsd::load_str(xml_str) {
            Err(Error::Io { message }) => assert!(message.contains("'>'")),
            other => panic!("expected an Io error, got {:?}", other),
        }
    }
}

#[test]
fn declared_prefix_stops_at_a_second_colon() {
    let root = XmlNode {
        name: "schema".to_owned(),
        attributes: vec![(
            "xmlns:a:b".to_owned(),
            "http://www.w3.org/2001/XMLSchema".to_owned(),
        )],
        text: String::new(),
        children: vec![],
    };
    let xsd = Xsd::parse(&root).unwrap();
    assert_eq!(xsd.prefix(), "a");
}

#[test]
fn non_ascii_declaration_is_refused_up_front() {
    let xml_str = "<?xml a=é!?>\n<xs:schema xmlns:xs=\"http://www.w3.org/2001/XMLSchema\"/>";
    match Xsd::load_str(xml_str) {
        Err(Error::Io { message }) => assert!(message.contains("not ASCII")),
        other => panic!("expected an Io error, got {:?}", other),
    }
}

#[test]
fn ascii_declaration_parses() {
    let xml_str = "<?xml version=\"1.0\" encoding=\"UTF-8\"?>\n<xs:schema xmlns:xs=\"http://www.w3.org/2001/XMLSchema\">\n    <xs:simpleType name=\"mode\"/>\n</xs:schema>";
    let xsd = Xsd::load_str(xml_str).unwrap();
    assert_eq!(xsd.prefix(), "xs");
    assert_eq!(xsd.entries().len(), 1);
}

#[test]
fn non_ascii_documentation_is_fine_without_a_declaration() {
    let xml_str = r#"
    <xs:schema xmlns:xs="http://www.w3.org/2001/XMLSchema">
        <xs:group name="dynamics">
            <xs:annotation>
                <xs:documentation>très fort</xs:documentation>
            </xs:annotation>
        </xs:group>
    </xs:schema>"#;
    let xsd = Xsd::load_str(xml_str).unwrap();
    assert_eq!(xsd.entries()[0].documentation(), "très fort");
}

#[test]
fn attribute_without_name_reports_missing_attribute() {
    let xml_str = r#"
	<xs:attributeGroup name="broken">
		<xs:attribute type="percent"/>
	</xs:attributeGroup>"#;
    let root = parse_document(xml_str).unwrap();
    match AttributeGroup::from_xml(&root, 0) {
        Err(Error::MissingAttribute { attribute, node }) => {
            assert_eq!(attribute, "name");
            assert_eq!(node, "attribute");
        }
        other => panic!("expected a MissingAttribute error, got {:?}", other),
    }
}

#[test]
fn unknown_child_is_rejected() {
    let xml_str = r#"
	<xs:attributeGroup name="broken">
		<xs:florp/>
	</xs:attributeGroup>"#;
    let root = parse_document(xml_str).unwrap();
    match AttributeGroup::from_xml(&root, 0) {
        Err(Error::UnexpectedNode { actual, .. }) => assert_eq!(actual, "florp"),
        other => panic!("expected an UnexpectedNode error, got {:?}", other),
    }
}
