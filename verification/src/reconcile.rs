//! Reconciliation: each expected file is compared with what was found on
//! disk at its place, and is present, out of date or missing.

use vstd::prelude::*;
use vstd::string::*;
use crate::digest::{compute_md5_hex, md5_hex};
use crate::manifest::{Manifest, PatchFile, PatchFileView};

verus! {

/// How a file on disk stands to what the manifest expects.
#[derive(Debug, Clone, Copy, PartialEq, Eq, Structural)]
pub enum Status {
    /// The content on disk has the expected digest.
    Present,
    /// There is a file, with another digest.
    OutOfDate,
    /// There is no file.
    Missing,
}

/// What was found on disk at the place of an expected file.
#[derive(Debug)]
pub enum LocalFile {
    /// Nothing exists at the path.
    Absent,
    /// A file exists: the digest of its content and its length in bytes.
    Found { digest: String, size: u64 },
}

/// A finding on disk as a value of the model.
pub enum LocalFileView {
    Absent,
    Found { digest: Seq<char>, size: nat },
}

impl View for LocalFile {
    type V = LocalFileView;

    open spec fn view(&self) -> LocalFileView {
        match self {
            LocalFile::Absent => LocalFileView::Absent,
            LocalFile::Found { digest, size } => LocalFileView::Found {
                digest: digest@,
                size: *size as nat,
            },
        }
    }
}

impl LocalFileView {
    /// The length found, if any, can be held as a signed size.
    pub open spec fn fits(self) -> bool {
        match self {
            LocalFileView::Absent => true,
            LocalFileView::Found { digest, size } => size <= i64::MAX,
        }
    }
}

/// The model of a list of findings.
pub open spec fn locals_view(locals: Seq<LocalFile>) -> Seq<LocalFileView> {
    Seq::new(locals.len(), |i: int| locals[i]@)
}

impl LocalFile {
    /// The finding for a file with the given content.
    pub fn from_contents(contents: &[u8]) -> (local: LocalFile)
        ensures
            local@ == (LocalFileView::Found {
                digest: md5_hex(contents@),
                size: contents@.len(),
            }),
    {
        LocalFile::Found { digest: compute_md5_hex(contents), size: contents.len() as u64 }
    }
}

/// One expected file together with what reconciliation found for it.
#[derive(Debug)]
pub struct FileOperation {
    patch_file: PatchFile,
    size: i64,
    status: Status,
}

/// A file operation as a value of the model.
pub struct FileOperationView {
    /// The expected file.
    pub patch_file: PatchFileView,
    /// The length of the file on disk; 0 where there is none.
    pub size: int,
    pub status: Status,
}

impl View for FileOperation {
    type V = FileOperationView;

    closed spec fn view(&self) -> FileOperationView {
        FileOperationView {
            patch_file: self.patch_file@,
            size: self.size as int,
            status: self.status,
        }
    }
}

impl Clone for FileOperation {
    fn clone(&self) -> (copy: FileOperation)
        ensures
            copy@ == self@,
    {
        FileOperation { patch_file: self.patch_file.clone(), size: self.size, status: self.status }
    }
}

/// The outcome of comparing one expected file with what was found for it:
/// missing where nothing was found, present where the digest found is the
/// expected one, out of date where it is another.
pub open spec fn classified(file: PatchFileView, local: LocalFileView) -> FileOperationView {
    match local {
        LocalFileView::Absent => FileOperationView {
            patch_file: file,
            size: 0,
            status: Status::Missing,
        },
        LocalFileView::Found { digest, size } => FileOperationView {
            patch_file: file,
            size: size as int,
            status: if digest == file.hash {
                Status::Present
            } else {
                Status::OutOfDate
            },
        },
    }
}

/// The outcomes for a list of expected files, one for each, in their order.
pub open spec fn classified_all(files: Seq<PatchFileView>, locals: Seq<LocalFileView>) -> Seq<
    FileOperationView,
> {
    Seq::new(files.len(), |i: int| classified(files[i], locals[i]))
}

/// The model of a list of file operations.
pub open spec fn operations_view(operations: Seq<FileOperation>) -> Seq<FileOperationView> {
    Seq::new(operations.len(), |i: int| operations[i]@)
}

impl FileOperationView {
    /// The file has to be downloaded.
    pub open spec fn is_pending(self) -> bool {
        self.status != Status::Present
    }

    /// Sizes are byte counts, and a missing file has no length.
    pub open spec fn wf(self) -> bool {
        &&& self.patch_file.wf()
        &&& 0 <= self.size <= i64::MAX
        &&& self.status == Status::Missing ==> self.size == 0
    }
}

impl FileOperation {
    /// Compares one expected file with what was found for it.
    pub fn classify(file: &PatchFile, local: &LocalFile) -> (operation: FileOperation)
        requires
            local@.fits(),
        ensures
            operation@ == classified(file@, local@),
    {
        match local {
            LocalFile::Absent => FileOperation {
                patch_file: file.clone(),
                size: 0,
                status: Status::Missing,
            },
            LocalFile::Found { digest, size } => FileOperation {
                patch_file: file.clone(),
                size: *size as i64,
                status: if *digest == file.hash {
                    Status::Present
                } else {
                    Status::OutOfDate
                },
            },
        }
    }

    /// Compares every expected file of a manifest with what was found for
    /// it. `locals` holds the findings in the order of the files.
    pub fn process(manifest: &Manifest, locals: &Vec<LocalFile>) -> (operations: Vec<FileOperation>)
        requires
            locals@.len() == manifest@.files.len(),
            forall|i: int| 0 <= i < locals@.len() ==> (#[trigger] locals_view(locals@)[i]).fits(),
        ensures
            operations_view(operations@) == classified_all(manifest@.files, locals_view(locals@)),
    {
        let mut operations: Vec<FileOperation> = Vec::new();
        let mut i: usize = 0;
        while i < manifest.files.len()
            invariant
                i <= manifest.files.len(),
                locals@.len() == manifest.files.len(),
                forall|j: int|
                    0 <= j < locals@.len() ==> (#[trigger] locals_view(locals@)[j]).fits(),
                operations@.len() == i,
                forall|j: int|
                    0 <= j < i ==> (#[trigger] operations@[j])@ == classified(
                        manifest.files@[j]@,
                        locals@[j]@,
                    ),
            decreases manifest.files.len() - i,
        {
            assert(locals_view(locals@)[i as int].fits());
            operations.push(FileOperation::classify(&manifest.files[i], &locals[i]));
            i = i + 1;
        }
        assert(operations_view(operations@) =~= classified_all(
            manifest@.files,
            locals_view(locals@),
        ));
        operations
    }

    /// The expected file.
    pub fn patch_file(&self) -> (file: &PatchFile)
        ensures
            file@ == self@.patch_file,
    {
        &self.patch_file
    }

    /// The length of the file on disk; 0 where there is none.
    pub fn size(&self) -> (size: i64)
        ensures
            size == self@.size,
    {
        self.size
    }

    /// How the file on disk stands to the expected one.
    pub fn status(&self) -> (status: Status)
        ensures
            status == self@.status,
    {
        self.status
    }
}

/// The model of a list of borrowed file operations.
pub open spec fn borrowed_view(operations: Seq<&FileOperation>) -> Seq<FileOperationView> {
    Seq::new(operations.len(), |i: int| operations[i]@)
}

/// What is made of a well-formed file and a finding that fits is well
/// formed.
pub proof fn lemma_classified_wf(file: PatchFileView, local: LocalFileView)
    requires
        file.wf(),
        local.fits(),
    ensures
        classified(file, local).wf(),
{
}

/// A file is present exactly where a file was found whose digest is the
/// expected one, missing exactly where none was found, and out of date
/// exactly where one was found with another digest. The size is the one
/// found, and 0 for a missing file.
pub proof fn lemma_classification(file: PatchFileView, local: LocalFileView)
    ensures
        classified(file, local).patch_file == file,
        classified(file, local).status == Status::Present <==> (local matches
            LocalFileView::Found { digest, size } && digest == file.hash),
        classified(file, local).status == Status::OutOfDate <==> (local matches
            LocalFileView::Found { digest, size } && digest != file.hash),
        classified(file, local).status == Status::Missing <==> local is Absent,
        local is Absent ==> classified(file, local).size == 0,
        local matches LocalFileView::Found { digest, size } ==> classified(file, local).size
            == size,
{
}

/// The file whose content on disk has the expected digest is present; one
/// with another digest is out of date.
pub proof fn lemma_content_decides(file: PatchFileView, contents: Seq<u8>)
    ensures
        md5_hex(contents) == file.hash ==> classified(
            file,
            LocalFileView::Found { digest: md5_hex(contents), size: contents.len() },
        ).status == Status::Present,
        md5_hex(contents) != file.hash ==> classified(
            file,
            LocalFileView::Found { digest: md5_hex(contents), size: contents.len() },
        ).status == Status::OutOfDate,
{
}

/// Reconciliation gives one operation for each expected file, in the
/// order of the manifest, and each is about its file.
pub proof fn lemma_one_operation_per_file(files: Seq<PatchFileView>, locals: Seq<LocalFileView>)
    ensures
        classified_all(files, locals).len() == files.len(),
        forall|i: int|
            0 <= i < files.len() ==> (#[trigger] classified_all(files, locals)[i]).patch_file
                == files[i],
{
}

} // verus!
