//! The order in which a parser hands out a document's roots.

use nexus::parser::{assert_kind, edge_arity};
use nexus::{AssertKind, DecodeFailure, Parser};

#[test]
fn roots_come_out_one_per_read_and_then_end_of_input_forever() {
    let mut parser: Parser<&str, String> = Parser::new(Ok(vec!["(Node a)", "(Node b)"]));
    assert_eq!(parser.next_root(), Ok(Some(0)));
    assert_eq!(parser.root(0), Some(&"(Node a)"));
    assert_eq!(parser.next_root(), Ok(Some(1)));
    assert_eq!(parser.root(1), Some(&"(Node b)"));
    for _ in 0..3 {
        assert_eq!(parser.next_root(), Ok(None));
    }
    assert_eq!(parser.root(2), None);
}

#[test]
fn a_parse_error_is_reported_once() {
    let mut parser: Parser<&str, String> = Parser::new(Err("unclosed record".to_owned()));
    assert_eq!(parser.next_root(), Err("unclosed record".to_owned()));
    assert_eq!(parser.next_root(), Ok(None));
    assert_eq!(parser.next_root(), Ok(None));
    assert_eq!(parser.root(0), None);
}

#[test]
fn an_empty_document_is_at_its_end() {
    let mut parser: Parser<u8, String> = Parser::new(Ok(Vec::new()));
    assert_eq!(parser.next_root(), Ok(None));
}

#[test]
fn the_three_heads_name_their_operations() {
    assert_eq!(assert_kind(Some(Some("Node"))), Ok(AssertKind::Node));
    assert_eq!(assert_kind(Some(Some("Edge"))), Ok(AssertKind::Edge));
    assert_eq!(assert_kind(Some(Some("Graph"))), Ok(AssertKind::Graph));
}

#[test]
fn other_heads_are_refused() {
    assert_eq!(
        assert_kind(Some(Some("node"))),
        Err(DecodeFailure::UnknownVariant {
            enum_name: "AssertOperation",
            variant: "node".to_owned(),
        })
    );
    assert_eq!(
        assert_kind(Some(None)),
        Err(DecodeFailure::ExpectedAtom {
            record: "AssertOperation head"
        })
    );
    assert_eq!(
        assert_kind(None),
        Err(DecodeFailure::ExpectedRootCount {
            record: "AssertOperation",
            expected: 1,
            found: 0,
        })
    );
}

#[test]
fn an_edge_has_exactly_three_fields() {
    assert_eq!(edge_arity(3), Ok(()));
    for found in [0usize, 2, 4] {
        assert_eq!(
            edge_arity(found),
            Err(DecodeFailure::ExpectedRootCount {
                record: "Edge",
                expected: 3,
                found,
            })
        );
    }
}
