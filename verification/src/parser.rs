//! The decisions of the Nexus text parser, over plain values.
//!
//! The text is first parsed into a document of top-level root objects; each
//! root then decodes into one request. Parsing and decoding are the codec's
//! work. What is decided here is the order: a document that failed to parse
//! reports its error on the first read and is then at its end, and a
//! document that parsed hands out its roots one per read, in order, and then
//! reports the end of input on every later read. The caller stops on the
//! first error, since reply positions would otherwise lose sync with the
//! surviving requests. Also decided here: which record heads name an Assert
//! operation, and how many fields an edge has.
use vstd::prelude::*;
use crate::text::same_text;

verus! {

/// A cursor over the root objects of one parsed document.
pub struct Parser<Root, ParseError> {
    root_objects: Vec<Root>,
    next_index: usize,
    parse_error: Option<ParseError>,
}

/// What a parser holds: the roots, the index of the next one to hand out,
/// and the parse error not yet reported.
pub struct ParserState<Root, ParseError> {
    pub roots: Seq<Root>,
    pub next_index: usize,
    pub parse_error: Option<ParseError>,
}

impl<Root, ParseError> View for Parser<Root, ParseError> {
    type V = ParserState<Root, ParseError>;

    closed spec fn view(&self) -> ParserState<Root, ParseError> {
        ParserState { roots: self.root_objects@, next_index: self.next_index, parse_error: self.parse_error }
    }
}

/// The state of a parser opened over what parsing the text gave.
pub open spec fn opened<Root, ParseError>(parsed: Result<Seq<Root>, ParseError>) -> ParserState<Root, ParseError> {
    match parsed {
        Ok(roots) => ParserState { roots, next_index: 0, parse_error: None },
        Err(error) => ParserState { roots: Seq::empty(), next_index: 0, parse_error: Some(error) },
    }
}

/// What the next read answers: the held parse error first, then the index of
/// the next root, then the end of input.
pub open spec fn read_outcome<Root, ParseError>(state: ParserState<Root, ParseError>) -> Result<Option<usize>, ParseError> {
    match state.parse_error {
        Some(error) => Err(error),
        None => if state.next_index < state.roots.len() {
            Ok(Some(state.next_index))
        } else {
            Ok(None)
        },
    }
}

/// The state after one read.
pub open spec fn read_once<Root, ParseError>(state: ParserState<Root, ParseError>) -> ParserState<Root, ParseError> {
    match state.parse_error {
        Some(_) => ParserState { parse_error: None, ..state },
        None => if state.next_index < state.roots.len() {
            ParserState { next_index: (state.next_index + 1) as usize, ..state }
        } else {
            state
        },
    }
}

/// The state after `count` reads.
pub open spec fn read_times<Root, ParseError>(state: ParserState<Root, ParseError>, count: nat) -> ParserState<Root, ParseError>
    decreases count,
{
    if count == 0 {
        state
    } else {
        read_once(read_times(state, (count - 1) as nat))
    }
}

impl<Root, ParseError> Parser<Root, ParseError> {
    /// Open a parser over what parsing the text gave: its root objects, or
    /// the error that parsing stopped on.
    pub fn new(parsed: Result<Vec<Root>, ParseError>) -> (parser: Self)
        ensures
            parser@ == opened(
                match parsed {
                    Ok(roots) => Ok(roots@),
                    Err(error) => Err(error),
                },
            ),
    {
        match parsed {
            Ok(root_objects) => Self { root_objects, next_index: 0, parse_error: None },
            Err(error) => Self { root_objects: Vec::new(), next_index: 0, parse_error: Some(error) },
        }
    }

    /// Read the index of the next top-level root, `None` at the end of input,
    /// or the error that parsing stopped on, once.
    pub fn next_root(&mut self) -> (outcome: Result<Option<usize>, ParseError>)
        ensures
            outcome == read_outcome(old(self)@),
            final(self)@ == read_once(old(self)@),
    {
        let held = self.parse_error.take();
        if let Some(error) = held {
            return Err(error);
        }
        if self.next_index < self.root_objects.len() {
            let index = self.next_index;
            self.next_index = index + 1;
            Ok(Some(index))
        } else {
            Ok(None)
        }
    }

    /// The root at `index`, if there is one.
    pub fn root(&self, index: usize) -> (root: Option<&Root>)
        ensures
            index < self@.roots.len() ==> root == Some(&self@.roots[index as int]),
            index >= self@.roots.len() ==> root is None,
    {
        if index < self.root_objects.len() {
            Some(&self.root_objects[index])
        } else {
            None
        }
    }
}

/// The operations an Assert record can name by its head.
#[derive(Clone, Copy, Debug, PartialEq, Eq, Structural)]
pub enum AssertKind {
    Node,
    Edge,
    Graph,
}

/// Why a record does not decode into the shape it was read as.
#[derive(Clone, Debug, PartialEq, Eq)]
pub enum DecodeFailure {
    ExpectedRootCount { record: &'static str, expected: usize, found: usize },
    ExpectedAtom { record: &'static str },
    UnknownVariant { enum_name: &'static str, variant: String },
}

/// The operation an Assert record's head names. `head` is `None` for a record
/// with no children, `Some(None)` when its first child is not an atom, and
/// `Some(Some(text))` for an atom head.
pub fn assert_kind(head: Option<Option<&str>>) -> (kind: Result<AssertKind, DecodeFailure>)
    ensures
        match head {
            None => kind == Err::<AssertKind, DecodeFailure>(
                DecodeFailure::ExpectedRootCount { record: "AssertOperation", expected: 1, found: 0 },
            ),
            Some(None) => kind == Err::<AssertKind, DecodeFailure>(
                DecodeFailure::ExpectedAtom { record: "AssertOperation head" },
            ),
            Some(Some(text)) => if text@ == "Node"@ {
                kind == Ok::<AssertKind, DecodeFailure>(AssertKind::Node)
            } else if text@ == "Edge"@ {
                kind == Ok::<AssertKind, DecodeFailure>(AssertKind::Edge)
            } else if text@ == "Graph"@ {
                kind == Ok::<AssertKind, DecodeFailure>(AssertKind::Graph)
            } else {
                kind matches Err(DecodeFailure::UnknownVariant { enum_name, variant })
                    && enum_name == "AssertOperation" && variant@ == text@
            },
        },
{
    match head {
        None => Err(DecodeFailure::ExpectedRootCount { record: "AssertOperation", expected: 1, found: 0 }),
        Some(None) => Err(DecodeFailure::ExpectedAtom { record: "AssertOperation head" }),
        Some(Some(text)) => {
            if same_text(text, "Node") {
                Ok(AssertKind::Node)
            } else if same_text(text, "Edge") {
                Ok(AssertKind::Edge)
            } else if same_text(text, "Graph") {
                Ok(AssertKind::Graph)
            } else {
                Err(DecodeFailure::UnknownVariant { enum_name: "AssertOperation", variant: text.to_owned() })
            }
        },
    }
}

/// An edge has exactly three fields: from, to and kind.
pub fn edge_arity(found: usize) -> (checked: Result<(), DecodeFailure>)
    ensures
        found == 3 ==> checked is Ok,
        found != 3 ==> checked == Err::<(), DecodeFailure>(
            DecodeFailure::ExpectedRootCount { record: "Edge", expected: 3, found },
        ),
{
    if found != 3 {
        return Err(DecodeFailure::ExpectedRootCount { record: "Edge", expected: 3, found });
    }
    Ok(())
}

/// A document that parsed hands out its roots one per read, in order, and
/// then answers the end of input on every later read.
pub proof fn lemma_roots_come_out_in_order<Root, ParseError>(roots: Seq<Root>, count: nat)
    requires
        roots.len() <= usize::MAX,
    ensures
        read_outcome(read_times(opened::<Root, ParseError>(Ok(roots)), count)) == if count < roots.len() {
            Ok::<Option<usize>, ParseError>(Some(count as usize))
        } else {
            Ok::<Option<usize>, ParseError>(None)
        },
        read_times(opened::<Root, ParseError>(Ok(roots)), count).parse_error is None,
        read_times(opened::<Root, ParseError>(Ok(roots)), count).roots == roots,
        read_times(opened::<Root, ParseError>(Ok(roots)), count).next_index == if count < roots.len() {
            count
        } else {
            roots.len()
        },
    decreases count,
{
    if count > 0 {
        lemma_roots_come_out_in_order::<Root, ParseError>(roots, (count - 1) as nat);
    }
}

/// A document that failed to parse reports its error on the first read and
/// only then: every later read answers the end of input.
pub proof fn lemma_parse_error_reported_once<Root, ParseError>(error: ParseError, count: nat)
    ensures
        read_outcome(read_times(opened::<Root, ParseError>(Err(error)), count)) == if count == 0 {
            Err::<Option<usize>, ParseError>(error)
        } else {
            Ok::<Option<usize>, ParseError>(None)
        },
        count > 0 ==> read_times(opened::<Root, ParseError>(Err(error)), count) == opened::<Root, ParseError>(
            Ok(Seq::empty()),
        ),
    decreases count,
{
    if count > 0 {
        lemma_parse_error_reported_once::<Root, ParseError>(error, (count - 1) as nat);
    }
}

} // verus!
