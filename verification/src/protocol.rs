//! The request/result protocol between producers and the writer.

use vstd::prelude::*;

verus! {

/// `ratatui`'s rectangle of terminal cells.  The writer never looks inside a
/// rectangle: areas are carried through to the caller's row encoders, which
/// turn them into byte chunks.  Declared so that requests can hold it.
#[verifier::external_type_specification]
#[verifier::external_body]
pub struct ExRect(ratatui::layout::Rect);

/// Presentational state of the status indicator glyph.
#[derive(Clone, Copy, Debug, PartialEq, Eq)]
pub enum StatusIndicator {
    Busy,
    Ready,
}

/// A request from a producer to the writer.
pub enum WriterRequest {
    /// Update the status row (single-line HUD at the bottom).
    Status { text: String, size: (u16, u16), indicator: StatusIndicator },
    /// Transmit image bytes and place the image in the terminal area.
    ImageTransmit {
        encoded_chunks: Vec<Vec<u8>>,
        area: ratatui::layout::Rect,
        kgp_id: u32,
        old_area: Option<ratatui::layout::Rect>,
        epoch: u64,
    },
    /// Place a previously transmitted image in the terminal area.
    ImagePlace {
        area: ratatui::layout::Rect,
        kgp_id: u32,
        old_area: Option<ratatui::layout::Rect>,
        epoch: u64,
    },
    /// Clear all image overlays (used on shutdown).
    ClearAll { area: Option<ratatui::layout::Rect>, is_tmux: bool },
    /// Cancel an in-flight image task (best-effort).
    CancelImage {
        kgp_id: Option<u32>,
        is_tmux: bool,
        area: Option<ratatui::layout::Rect>,
        epoch: u64,
    },
    Shutdown,
}

/// A completion notification from the writer back to producers.
pub struct WriterResult {
    pub kind: WriterResultKind,
    pub epoch: u64,
}

#[derive(Clone, Copy, Debug, PartialEq, Eq)]
pub enum WriterResultKind {
    TransmitDone { kgp_id: u32 },
    PlaceDone { kgp_id: u32 },
}

/// Byte chunks produced by the caller's row encoders for one request.
///
/// The encoders themselves (erase rows, place rows, delete-all) are
/// collaborators outside this crate: pure functions from an area (and image
/// id) to ordered byte chunks, one chunk per row.  The caller runs them on
/// the areas named in the request and hands the writer their output.
pub struct RowEncodings {
    /// Rows erasing the old (or to-be-cleared) area; empty when the request
    /// names no such area.
    pub erase_old: Vec<Vec<u8>>,
    /// Rows placing the image in the target area; empty for requests that
    /// place nothing.
    pub place: Vec<Vec<u8>>,
    /// The single chunk that removes every uploaded image.
    pub delete_all: Vec<u8>,
}

/// The mathematical value of a chunk list: each chunk as a byte sequence.
pub open spec fn rows_view(rows: Seq<Vec<u8>>) -> Seq<Seq<u8>> {
    rows.map_values(|r: Vec<u8>| r@)
}

/// Model of [`RowEncodings`].
pub ghost struct EncModel {
    pub erase_old: Seq<Seq<u8>>,
    pub place: Seq<Seq<u8>>,
    pub delete_all: Seq<u8>,
}

impl View for RowEncodings {
    type V = EncModel;

    open spec fn view(&self) -> EncModel {
        EncModel {
            erase_old: rows_view(self.erase_old@),
            place: rows_view(self.place@),
            delete_all: self.delete_all@,
        }
    }
}

impl RowEncodings {
    /// Encodings for a request that needs none (status, shutdown).
    pub fn empty() -> (r: RowEncodings)
        ensures
            r@.erase_old == Seq::<Seq<u8>>::empty(),
            r@.place == Seq::<Seq<u8>>::empty(),
            r@.delete_all == Seq::<u8>::empty(),
    {
        let r = RowEncodings { erase_old: Vec::new(), place: Vec::new(), delete_all: Vec::new() };
        proof {
            assert(rows_view(r.erase_old@) =~= Seq::<Seq<u8>>::empty());
            assert(rows_view(r.place@) =~= Seq::<Seq<u8>>::empty());
        }
        r
    }
}

} // verus!
