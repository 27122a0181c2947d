//! A progress-tracked network image download's message types and UI-owned
//! state holder, kept alongside the CSV fetch as an independent slot.

use vstd::prelude::*;
use std::time::Duration;

verus! {

/// A progress message from the background image task: a chunk size in
/// bytes, or the elapsed time of the whole attempt.
#[derive(Clone, Copy)]
pub enum Channel {
    Data(usize),
    Elapsed(Duration),
}

/// Why an image fetch failed: a payload or transport failure, or a
/// failure while recording elapsed time.
pub enum ErrCause {
    Data(String),
    Elapsed(String),
}

/// The terminal payload of a successful image fetch.
pub enum Container {
    Data(Vec<Vec<String>>),
    Elapsed(Duration),
}

/// UI-owned record of the latest image fetch's rows, size and error status.
pub struct NetworkImage {
    pub image: Option<Vec<Vec<String>>>,
    pub file_size: usize,
    pub tmp_file_size: usize,
    pub show_image_progress: bool,
    pub error: Option<String>,
    pub seed: usize,
}

impl Default for NetworkImage {
    /// The state before any fetch: no image, no error, no progress shown.
    fn default() -> (d: Self)
        ensures
            d.image is None,
            d.file_size == 0,
            d.tmp_file_size == 0,
            !d.show_image_progress,
            d.error is None,
            d.seed == 0,
    {
        NetworkImage {
            image: None,
            file_size: 0,
            tmp_file_size: 0,
            show_image_progress: false,
            error: None,
            seed: 0,
        }
    }
}

impl NetworkImage {
    /// Stores the rows of a successful fetch and clears any stale error.
    pub fn set_image(&mut self, image: Vec<Vec<String>>)
        ensures
            final(self).image == Some(image),
            final(self).error is None,
            final(self).file_size == old(self).file_size,
            final(self).tmp_file_size == old(self).tmp_file_size,
            final(self).show_image_progress == old(self).show_image_progress,
            final(self).seed == old(self).seed,
    {
        self.error = None;
        self.image = Some(image);
    }

    /// Stores the error message of a failed fetch and clears any stale image.
    pub fn set_error(&mut self, e: String)
        ensures
            final(self).error == Some(e),
            final(self).image is None,
            final(self).file_size == old(self).file_size,
            final(self).tmp_file_size == old(self).tmp_file_size,
            final(self).show_image_progress == old(self).show_image_progress,
            final(self).seed == old(self).seed,
    {
        self.image = None;
        self.error = Some(e);
    }

    /// The repair transition: folds the accumulated byte count into the
    /// displayed size in KB (truncating division, only from 1000 bytes up),
    /// clears the progress flag and zeroes the accumulator.
    pub fn repair(&mut self)
        ensures
            old(self).tmp_file_size >= 1000 ==> final(self).file_size == old(self).tmp_file_size
                / 1000,
            old(self).tmp_file_size < 1000 ==> final(self).file_size == old(self).file_size,
            final(self).tmp_file_size == 0,
            !final(self).show_image_progress,
            final(self).image == old(self).image,
            final(self).error == old(self).error,
            final(self).seed == old(self).seed,
    {
        if self.tmp_file_size >= 1000 {
            self.file_size = self.tmp_file_size / 1000;
        }
        self.show_image_progress = false;
        self.tmp_file_size = 0;
    }
}

} // verus!
