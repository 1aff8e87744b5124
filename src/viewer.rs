use vstd::prelude::*;
use crate::diff::{compare, get_diffs, Diff};

verus! {

/// Number of bytes in a randomly generated blob.
pub const RANDOM_LEN: usize = 1000;

/// Which of the two panes a blob belongs to.
#[derive(Debug, Clone, Copy, PartialEq, Eq, Structural)]
pub enum WhichFile {
    File1,
    File2,
}

/// A blob shown in one pane, with the name and type it was loaded under.
pub struct FileDetails {
    pub name: String,
    pub file_type: String,
    pub data: Vec<u8>,
}

/// The two panes of the viewer: the blob loaded in each, and the
/// classification shown for every byte of each.
pub struct Viewer {
    file1: Option<FileDetails>,
    file2: Option<FileDetails>,
    diffs1: Vec<Diff>,
    diffs2: Vec<Diff>,
}

/// Relies on rand::thread_rng and Rng::gen_range over `0..=255`: any byte may come back.
#[verifier::external_body]
fn random_byte() -> (r: u8) {
    rand::Rng::gen_range(&mut rand::thread_rng(), 0..=255u8)
}

impl Viewer {
    /// The blob loaded in pane `which`, if any.
    pub closed spec fn spec_file(&self, which: WhichFile) -> Option<FileDetails> {
        match which {
            WhichFile::File1 => self.file1,
            WhichFile::File2 => self.file2,
        }
    }

    /// The classifications shown in pane `which`.
    pub closed spec fn spec_diffs(&self, which: WhichFile) -> Seq<Diff> {
        match which {
            WhichFile::File1 => self.diffs1@,
            WhichFile::File2 => self.diffs2@,
        }
    }

    /// With both panes loaded, the classifications are those of the two blobs
    /// against each other; otherwise both panes show none.
    pub open spec fn well_formed(&self) -> bool {
        match (self.spec_file(WhichFile::File1), self.spec_file(WhichFile::File2)) {
            (Some(f1), Some(f2)) => {
                self.spec_diffs(WhichFile::File1) == compare(f1.data@, f2.data@).0
                    && self.spec_diffs(WhichFile::File2) == compare(f1.data@, f2.data@).1
            },
            _ => {
                self.spec_diffs(WhichFile::File1).len() == 0
                    && self.spec_diffs(WhichFile::File2).len() == 0
            },
        }
    }

    /// A viewer with both panes empty.
    pub fn new() -> (r: Viewer)
        ensures
            r.well_formed(),
            r.spec_file(WhichFile::File1).is_none(),
            r.spec_file(WhichFile::File2).is_none(),
    {
        Viewer { file1: None, file2: None, diffs1: Vec::new(), diffs2: Vec::new() }
    }

    /// Recomputes the classifications from the blobs now loaded.
    fn update_diffs(&mut self)
        ensures
            final(self).well_formed(),
            final(self).spec_file(WhichFile::File1) == old(self).spec_file(WhichFile::File1),
            final(self).spec_file(WhichFile::File2) == old(self).spec_file(WhichFile::File2),
    {
        let (diffs1, diffs2) = match (&self.file1, &self.file2) {
            (Some(file1), Some(file2)) => get_diffs(file1.data.as_slice(), file2.data.as_slice()),
            _ => (Vec::new(), Vec::new()),
        };
        self.diffs1 = diffs1;
        self.diffs2 = diffs2;
    }

    /// Puts `file` into pane `which` and recomputes the classifications.
    pub fn load(&mut self, which: WhichFile, file: FileDetails)
        ensures
            final(self).well_formed(),
            final(self).spec_file(which) == Some(file),
            forall|w: WhichFile| w != which ==> final(self).spec_file(w) == old(self).spec_file(w),
    {
        match which {
            WhichFile::File1 => self.file1 = Some(file),
            WhichFile::File2 => self.file2 = Some(file),
        }
        self.update_diffs();
    }

    /// Fills pane `which` with `RANDOM_LEN` random bytes, named "random" of
    /// type "test", and recomputes the classifications.
    pub fn randomize(&mut self, which: WhichFile)
        ensures
            final(self).well_formed(),
            final(self).spec_file(which) is Some,
            final(self).spec_file(which).unwrap().name@ == "random"@,
            final(self).spec_file(which).unwrap().file_type@ == "test"@,
            final(self).spec_file(which).unwrap().data@.len() == RANDOM_LEN,
            forall|w: WhichFile| w != which ==> final(self).spec_file(w) == old(self).spec_file(w),
    {
        let mut data: Vec<u8> = Vec::new();
        let mut i: usize = 0;
        while i < RANDOM_LEN
            invariant
                i <= RANDOM_LEN,
                data@.len() == i,
            decreases RANDOM_LEN - i,
        {
            data.push(random_byte());
            i = i + 1;
        }
        let file = FileDetails {
            name: "random".to_string(),
            file_type: "test".to_string(),
            data,
        };
        self.load(which, file);
    }

    /// The classifications shown in pane `which`.
    pub fn diffs(&self, which: WhichFile) -> (r: &Vec<Diff>)
        ensures
            r@ == self.spec_diffs(which),
    {
        match which {
            WhichFile::File1 => &self.diffs1,
            WhichFile::File2 => &self.diffs2,
        }
    }

    /// A copy of the blob in pane `which`, or no bytes when the pane is empty.
    pub fn data(&self, which: WhichFile) -> (r: Vec<u8>)
        ensures
            r@ == match self.spec_file(which) {
                Some(f) => f.data@,
                None => Seq::<u8>::empty(),
            },
    {
        let file = match which {
            WhichFile::File1 => &self.file1,
            WhichFile::File2 => &self.file2,
        };
        match file {
            Some(f) => {
                let r = f.data.clone();
                assert(r@ =~= f.data@);
                r
            },
            None => Vec::new(),
        }
    }

    /// The name of the blob in pane `which`, or "no file" when the pane is empty.
    pub fn file_name(&self, which: WhichFile) -> (r: &str)
        ensures
            r@ == match self.spec_file(which) {
                Some(f) => f.name@,
                None => "no file"@,
            },
    {
        let file = match which {
            WhichFile::File1 => &self.file1,
            WhichFile::File2 => &self.file2,
        };
        match file {
            Some(f) => f.name.as_str(),
            None => "no file",
        }
    }
}

} // verus!
