//! Clipboard event engine: the verified core of a clipboard monitor.
//!
//! The engine reacts to clipboard-change notifications. A throttle collapses
//! notification bursts, a classifier dispatches each accepted notification on
//! the formats the clipboard advertises, a file-drop analyzer turns dropped
//! paths into categorized entries, and an image deduplicator decides whether
//! a bitmap payload is a fresh capture or a repeat of the one already
//! reported.
//!
//! Everything here is plain computation on values the caller hands in: the
//! host process performs the operating-system calls (format queries,
//! clipboard access, shared-memory reads, owner resolution) and feeds their
//! results to these functions, then carries out the delivery the returned
//! decisions ask for.

use vstd::prelude::*;

pub mod acquire;
pub mod classify;
pub mod filedrop;
pub mod image;
pub mod report;
pub mod tables;
pub mod throttle;

use crate::filedrop::{check_dropped_files, dropped_entries, views_of_entries, views_of_paths,
    FileInfo};
use crate::image::{clear_fingerprint, fingerprint_of, image_step_delivers, is_duplicate,
    process_image_payload, ImageOutcome, ImgFingerprint, MIN_DIB_PAYLOAD};
use crate::tables::CategoryTables;
use crate::throttle::{throttle_accepts, throttle_next, Throttle};

verus! {

/// The engine's process-wide state: the throttle, the single retained image
/// fingerprint, and the category tables fixed at startup. One value of this
/// lives for the whole monitoring session and every notification pass works
/// on it.
pub struct EngineState {
    /// Rate limiter over clipboard-change notifications.
    pub throttle: Throttle,
    /// The fingerprint of the most recently reported (non-duplicate) image,
    /// when one is retained.
    pub last_img_fingerprint: Option<ImgFingerprint>,
    /// The extension tables of the file-drop analyzer.
    pub tables: CategoryTables,
}

impl EngineState {
    /// A fresh engine: nothing accepted yet, nothing retained, with the
    /// supplied tables fixed for the session.
    pub fn new(tables: CategoryTables) -> (s: EngineState)
        ensures
            s.throttle.last_accepted is None,
            s.last_img_fingerprint is None,
            s.tables == tables,
    {
        EngineState { throttle: Throttle::new(), last_img_fingerprint: Option::None, tables }
    }

    /// Ask the throttle whether the notification at `now` (monotonic
    /// milliseconds) may proceed. Nothing but the throttle changes.
    pub fn check_throttle(&mut self, now: u64) -> (accepted: bool)
        ensures
            accepted == throttle_accepts(old(self).throttle.last_accepted, now),
            final(self).throttle.last_accepted == throttle_next(
                old(self).throttle.last_accepted,
                now,
            ),
            final(self).last_img_fingerprint == old(self).last_img_fingerprint,
            final(self).tables == old(self).tables,
    {
        self.throttle.check_throttle(now)
    }

    /// Forget the retained image fingerprint, whatever it was; repeating the
    /// call is a no-op, not an error. Nothing but the fingerprint changes.
    pub fn clear_fingerprint(&mut self)
        ensures
            final(self).last_img_fingerprint is None,
            final(self).throttle == old(self).throttle,
            final(self).tables == old(self).tables,
    {
        clear_fingerprint(&mut self.last_img_fingerprint)
    }

    /// Run the image deduplicator over a fetched bitmap payload. Nothing but
    /// the retained fingerprint changes, and it only when the payload is
    /// judged novel.
    pub fn handle_image_payload(
        &mut self,
        payload: &Vec<u8>,
        pid: u32,
        pname: &String,
        now: u64,
    ) -> (out: ImageOutcome)
        ensures
            payload@.len() <= MIN_DIB_PAYLOAD ==> out is Undersized
                && final(self).last_img_fingerprint == old(self).last_img_fingerprint,
            payload@.len() > MIN_DIB_PAYLOAD && is_duplicate(
                old(self).last_img_fingerprint,
                fingerprint_of(payload@, pid, now),
            ) ==> out is Duplicate
                && final(self).last_img_fingerprint == old(self).last_img_fingerprint,
            image_step_delivers(old(self).last_img_fingerprint, payload@, pid, now)
                ==> final(self).last_img_fingerprint == Option::Some(
                fingerprint_of(payload@, pid, now),
            ) && (out matches ImageOutcome::Deliver(shot) && shot.pid == pid && shot.pname@
                == pname@ && shot.data@ == payload@),
            (out is Deliver) == image_step_delivers(
                old(self).last_img_fingerprint,
                payload@,
                pid,
                now,
            ),
            final(self).throttle == old(self).throttle,
            final(self).tables == old(self).tables,
    {
        process_image_payload(&mut self.last_img_fingerprint, payload, pid, pname, now)
    }

    /// Run the file-drop analyzer over a batch of dropped paths: the batch
    /// event to deliver, or nothing when no path matched a table — an empty
    /// batch produces no event at all.
    pub fn handle_file_drop(&self, paths: &Vec<String>, pid: u32, pname: &String) -> (event: Option<
        Vec<FileInfo>,
    >)
        ensures
            (event is Some) == (dropped_entries(
                self.tables,
                views_of_paths(paths@),
                pid,
                pname@,
            ).len() > 0),
            event matches Option::Some(v) ==> views_of_entries(v@) == dropped_entries(
                self.tables,
                views_of_paths(paths@),
                pid,
                pname@,
            ),
    {
        let entries = check_dropped_files(&self.tables, paths, pid, pname);
        if entries.len() > 0 {
            Option::Some(entries)
        } else {
            assert(views_of_entries(entries@).len() == 0);
            Option::None
        }
    }
}

} // verus!
