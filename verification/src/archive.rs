//! The persistent frame archive, modelled as the sequence of frames written
//! so far plus the content of the "latest" alias. Entry `i` is destined for
//! the file named `P<i>`; the alias for the file named `LATEST`. Recording
//! first rewrites the alias and only then extends the entries, so the alias
//! always mirrors the newest completed entry.
use vstd::prelude::*;
use vstd::slice::slice_to_vec;
use vstd::string::StringExecFns;
use crate::text::{decimal_string, spec_decimal};

verus! {

/// The archive: one record per captured frame, in capture order, and the
/// content of the "latest" alias.
pub struct FrameArchive {
    entries: Vec<Vec<u8>>,
    latest: Option<Vec<u8>>,
}

/// What one record does to the archive: the frame is appended and the
/// "latest" alias is rewritten to exactly that frame.
pub open spec fn spec_record(entries: Seq<Seq<u8>>, bytes: Seq<u8>) -> (Seq<Seq<u8>>, Option<
    Seq<u8>,
>) {
    (entries.push(bytes), Some(bytes))
}

/// The archive after recording each of `frames` in order, starting from
/// `entries` and alias `latest`.
pub open spec fn spec_record_all(
    entries: Seq<Seq<u8>>,
    latest: Option<Seq<u8>>,
    frames: Seq<Seq<u8>>,
) -> (Seq<Seq<u8>>, Option<Seq<u8>>)
    decreases frames.len(),
{
    if frames.len() == 0 {
        (entries, latest)
    } else {
        spec_record_all(
            spec_record(entries, frames[0]).0,
            spec_record(entries, frames[0]).1,
            frames.drop_first(),
        )
    }
}

impl FrameArchive {
    /// The frames recorded so far, in capture order.
    pub closed spec fn entries_view(&self) -> Seq<Seq<u8>> {
        Seq::new(self.entries@.len(), |i: int| self.entries@[i]@)
    }

    /// The content of the "latest" alias, if anything was recorded.
    pub closed spec fn latest_view(&self) -> Option<Seq<u8>> {
        match self.latest {
            Some(l) => Some(l@),
            None => None,
        }
    }

    /// The alias mirrors the newest entry: empty archive, empty alias;
    /// otherwise exactly the last recorded frame.
    pub open spec fn wf(&self) -> bool {
        if self.entries_view().len() == 0 {
            self.latest_view() is None
        } else {
            self.latest_view() == Some(self.entries_view().last())
        }
    }

    /// A fresh archive holds nothing.
    pub fn new() -> (r: Self)
        ensures
            r.entries_view() == Seq::<Seq<u8>>::empty(),
            r.latest_view() is None,
            r.wf(),
    {
        FrameArchive { entries: Vec::new(), latest: None }
    }

    /// How many frames were recorded.
    pub fn len(&self) -> (n: usize)
        ensures
            n == self.entries_view().len(),
    {
        self.entries.len()
    }

    /// Records one captured frame: appends it as the next entry and rewrites
    /// the "latest" alias to exactly its bytes. Returns the new entry's
    /// sequence number.
    pub fn record(&mut self, bytes: Vec<u8>) -> (index: usize)
        ensures
            (final(self).entries_view(), final(self).latest_view()) == spec_record(
                old(self).entries_view(),
                bytes@,
            ),
            index == old(self).entries_view().len(),
            final(self).wf(),
    {
        let copy = slice_to_vec(bytes.as_slice());
        let index = self.entries.len();
        self.latest = Some(copy);
        self.entries.push(bytes);
        proof {
            assert(self.entries_view() =~= old(self).entries_view().push(bytes@));
        }
        index
    }

    /// The bytes of entry `i`.
    pub fn entry(&self, i: usize) -> (r: &Vec<u8>)
        requires
            i < self.entries_view().len(),
        ensures
            r@ == self.entries_view()[i as int],
    {
        &self.entries[i]
    }

    /// The bytes the "latest" alias holds, if anything was recorded.
    pub fn latest(&self) -> (r: Option<&Vec<u8>>)
        ensures
            match r {
                Some(v) => self.latest_view() == Some(v@),
                None => self.latest_view() is None,
            },
    {
        match &self.latest {
            Some(v) => Some(v),
            None => None,
        }
    }
}

/// The file name of entry `i`: 'P' followed by `i` in decimal.
pub open spec fn spec_frame_file_name(i: nat) -> Seq<char> {
    seq!['P'] + spec_decimal(i)
}

/// Renders the file name of entry `i`.
pub fn frame_file_name(i: u64) -> (r: String)
    ensures
        r@ == spec_frame_file_name(i as nat),
{
    let mut s = String::from_str("P");
    let digits = decimal_string(i);
    s.append(digits.as_str());
    proof {
        reveal_strlit("P");
        assert(s@ =~= spec_frame_file_name(i as nat));
    }
    s
}

/// Renders the name of the "latest" alias file.
pub fn latest_file_name() -> (r: String)
    ensures
        r@ == "LATEST"@,
{
    String::from_str("LATEST")
}

/// Recording frames into any archive leaves exactly the prior entries
/// followed by those frames, and the "latest" alias equal to the newest
/// frame (or untouched when no frame was recorded).
pub proof fn lemma_record_all(entries: Seq<Seq<u8>>, latest: Option<Seq<u8>>, frames: Seq<Seq<u8>>)
    ensures
        spec_record_all(entries, latest, frames).0 == entries + frames,
        frames.len() > 0 ==> spec_record_all(entries, latest, frames).1 == Some(frames.last()),
        frames.len() == 0 ==> spec_record_all(entries, latest, frames).1 == latest,
    decreases frames.len(),
{
    if frames.len() == 0 {
        assert(entries + frames =~= entries);
    } else {
        lemma_record_all(entries.push(frames[0]), Some(frames[0]), frames.drop_first());
        assert(entries.push(frames[0]) + frames.drop_first() =~= entries + frames);
        if frames.len() > 1 {
            assert(frames.drop_first().last() == frames.last());
        }
    }
}

/// Starting from an empty archive, recording `frames` yields entry `i`
/// holding exactly the bytes captured at step `i`, and the "latest" alias
/// holding exactly the newest frame's bytes.
pub proof fn lemma_archive_mirrors_captures(frames: Seq<Seq<u8>>)
    requires
        frames.len() > 0,
    ensures
        spec_record_all(Seq::empty(), None, frames).0 == frames,
        spec_record_all(Seq::empty(), None, frames).1 == Some(frames.last()),
{
    lemma_record_all(Seq::empty(), None, frames);
    assert(Seq::<Seq<u8>>::empty() + frames =~= frames);
}

} // verus!
