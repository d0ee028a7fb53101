//! The steps that an interpretation is made of.

use vstd::prelude::*;

verus! {

/// One step of an interpretation. Text is written to the document; the other steps are work
/// for the caller, or frame the body of a message.
#[derive(Clone, Debug, PartialEq, Eq)]
pub enum Piece {
    /// Text to append to the document.
    Text(String),
    /// An attachment to write to `path` before going on.
    Save { path: String, data: Vec<u8> },
    /// A signature to check with `command` before going on.
    Verify { command: String, signature: Vec<u8> },
    /// An encrypted message to decrypt with `command`; the interpretation of what comes out
    /// takes this step's place.
    Decrypt { command: String, payload: Vec<u8> },
    /// The body of a message starts here.
    Open,
    /// The body of a message ends here: the whitespace that it ends with is dropped, and a
    /// line break added.
    Close,
}

/// A step as a mathematical value.
pub enum PieceView {
    Text(Seq<char>),
    Save { path: Seq<char>, data: Seq<u8> },
    Verify { command: Seq<char>, signature: Seq<u8> },
    Decrypt { command: Seq<char>, payload: Seq<u8> },
    Open,
    Close,
}

impl View for Piece {
    type V = PieceView;

    open spec fn view(&self) -> PieceView {
        match self {
            Piece::Text(s) => PieceView::Text(s@),
            Piece::Save { path, data } => PieceView::Save { path: path@, data: data@ },
            Piece::Verify { command, signature } => PieceView::Verify {
                command: command@,
                signature: signature@,
            },
            Piece::Decrypt { command, payload } => PieceView::Decrypt {
                command: command@,
                payload: payload@,
            },
            Piece::Open => PieceView::Open,
            Piece::Close => PieceView::Close,
        }
    }
}

/// The steps of a plan as mathematical values.
pub open spec fn pieces_view(pieces: Seq<Piece>) -> Seq<PieceView> {
    pieces.map_values(|p: Piece| p@)
}

/// Appending a step to a plan appends its value to the plan's values.
pub proof fn lemma_pieces_push(pieces: Seq<Piece>, p: Piece)
    ensures
        pieces_view(pieces.push(p)) == pieces_view(pieces).push(p@),
{
    assert(pieces_view(pieces.push(p)) =~= pieces_view(pieces).push(p@));
}

/// The values of two plans in a row are the values of the first, then those of the second.
pub proof fn lemma_pieces_add(a: Seq<Piece>, b: Seq<Piece>)
    ensures
        pieces_view(a + b) == pieces_view(a) + pieces_view(b),
{
    assert(pieces_view(a + b) =~= pieces_view(a) + pieces_view(b));
}

} // verus!
