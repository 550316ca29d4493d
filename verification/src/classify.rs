//! Content classifier: decides, from the formats the clipboard currently
//! advertises and the resolved owner, which branch one notification pass
//! takes.
//!
//! The branches form an ordered decision list, first match wins, and each
//! branch ends the pass: a file-list format goes to the file-drop analyzer;
//! an image format with an unresolved owner only clears the retained
//! fingerprint; a device-independent bitmap goes to the deduplicator; a
//! legacy bitmap alone is not parsed and the pass ends there; otherwise the
//! fingerprint is cleared and a registered table-data format yields an
//! informational notice; failing all of that, the pass is a no-op.

use vstd::prelude::*;
use vstd::string::StringExecFns;

verus! {

/// What the clipboard advertised when one notification arrived, plus the
/// resolved owner: `pid` 0 and the name `Unknown` stand for a failed
/// resolution.
pub struct ClipboardSnapshot {
    /// A dropped-file list is available.
    pub has_file_drop: bool,
    /// A legacy bitmap is available.
    pub has_bitmap: bool,
    /// A device-independent bitmap is available.
    pub has_dib: bool,
    /// The registered HTML table format is available.
    pub has_html: bool,
    /// The registered CSV table format is available.
    pub has_csv: bool,
    /// Id of the owning process, 0 when unresolved.
    pub pid: u32,
    /// Display name of the owning process, `Unknown` when unresolved.
    pub pname: String,
}

/// The branch a notification pass takes.
#[derive(Clone, Copy, PartialEq, Eq, Structural, Debug)]
pub enum PassAction {
    /// Hand the dropped-file list to the file-drop analyzer.
    FileDrop,
    /// An image format is present but the owner resolved to pid 0 (commonly
    /// the system flushing clipboard state): clear the retained fingerprint
    /// and read no payload.
    ImageOwnerUnknown,
    /// A device-independent bitmap with a known owner: run the image
    /// deduplicator.
    Image,
    /// A legacy bitmap from a known owner, without a device-independent
    /// bitmap: the payload is not parsed and the pass ends here, leaving the
    /// retained fingerprint untouched — the clipboard still holds an image.
    ImageNotParsed,
    /// No file list and no image format, but a registered table format:
    /// clear the retained fingerprint and emit an informational table-data
    /// notice.
    TableData,
    /// Nothing of interest: clear the retained fingerprint and do nothing
    /// else.
    Nothing,
}

/// The decision list, first match wins; each branch is terminal for its
/// pass. Any advertised image format takes the image branch: with a
/// device-independent bitmap the payload goes to the deduplicator, with a
/// legacy bitmap alone it is not parsed and nothing further happens. Only a
/// clipboard without file list and without image formats reaches the
/// table-data check.
pub open spec fn spec_classify(
    has_file_drop: bool,
    has_bitmap: bool,
    has_dib: bool,
    has_html: bool,
    has_csv: bool,
    pid: u32,
) -> PassAction {
    if has_file_drop {
        PassAction::FileDrop
    } else if (has_bitmap || has_dib) && pid == 0 {
        PassAction::ImageOwnerUnknown
    } else if has_dib {
        PassAction::Image
    } else if has_bitmap {
        PassAction::ImageNotParsed
    } else if has_html || has_csv {
        PassAction::TableData
    } else {
        PassAction::Nothing
    }
}

/// Whether a pass that takes this branch ends with the retained image
/// fingerprint cleared: the unresolved-owner image branch and every branch
/// reached with no image format on the clipboard do, so an unrelated later
/// image is never compared against a stale fingerprint. An unparsed legacy
/// bitmap keeps the fingerprint: the clipboard still holds an image.
pub open spec fn action_clears_fingerprint(a: PassAction) -> bool {
    a == PassAction::ImageOwnerUnknown || a == PassAction::TableData || a == PassAction::Nothing
}

impl ClipboardSnapshot {
    /// Assemble a snapshot from the advertised formats and the owner
    /// resolution; a failed resolution degrades to pid 0 and the name
    /// `Unknown` instead of aborting the pass.
    pub fn new(
        has_file_drop: bool,
        has_bitmap: bool,
        has_dib: bool,
        has_html: bool,
        has_csv: bool,
        owner: Option<(u32, String)>,
    ) -> (snap: ClipboardSnapshot)
        ensures
            snap.has_file_drop == has_file_drop,
            snap.has_bitmap == has_bitmap,
            snap.has_dib == has_dib,
            snap.has_html == has_html,
            snap.has_csv == has_csv,
            match owner {
                Option::Some(o) => snap.pid == o.0 && snap.pname@ == o.1@,
                Option::None => snap.pid == 0 && snap.pname@ == "Unknown"@,
            },
    {
        let (pid, pname): (u32, String) = match owner {
            Option::Some((p, n)) => (p, n),
            Option::None => (0, String::from_str("Unknown")),
        };
        ClipboardSnapshot { has_file_drop, has_bitmap, has_dib, has_html, has_csv, pid, pname }
    }

    /// The branch this snapshot's pass takes.
    pub fn classify(&self) -> (action: PassAction)
        ensures
            action == spec_classify(
                self.has_file_drop,
                self.has_bitmap,
                self.has_dib,
                self.has_html,
                self.has_csv,
                self.pid,
            ),
    {
        if self.has_file_drop {
            PassAction::FileDrop
        } else if (self.has_bitmap || self.has_dib) && self.pid == 0 {
            PassAction::ImageOwnerUnknown
        } else if self.has_dib {
            PassAction::Image
        } else if self.has_bitmap {
            PassAction::ImageNotParsed
        } else if self.has_html || self.has_csv {
            PassAction::TableData
        } else {
            PassAction::Nothing
        }
    }
}

} // verus!
