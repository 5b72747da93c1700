//! The transaction: what reconciling one manifest with one directory gave,
//! with its groups of files by status and its totals.

use vstd::prelude::*;
use vstd::string::*;
use crate::manifest::{Manifest, ManifestView};
use crate::reconcile::{
    borrowed_view, classified_all, lemma_classified_wf, locals_view, operations_view,
    FileOperationView, LocalFileView,
};

pub use crate::reconcile::{FileOperation, LocalFile, Status};
pub use crate::report::{FileReport, TransactionReport};

verus! {

/// The operations with the given status, in their order.
pub open spec fn with_status(operations: Seq<FileOperationView>, status: Status) -> Seq<
    FileOperationView,
> {
    operations.filter(|operation: FileOperationView| operation.status == status)
}

/// The operations that need a download, in their order.
pub open spec fn pending(operations: Seq<FileOperationView>) -> Seq<FileOperationView> {
    operations.filter(|operation: FileOperationView| operation.is_pending())
}

/// The bytes to download for one operation: the expected size, unless the
/// file is present.
pub open spec fn download_need(operation: FileOperationView) -> int {
    if operation.is_pending() {
        operation.patch_file.size
    } else {
        0
    }
}

/// By how much one operation makes the tree grow on disk: the expected size
/// less the size found, unless the file is present.
pub open spec fn space_need(operation: FileOperationView) -> int {
    if operation.is_pending() {
        operation.patch_file.size - operation.size
    } else {
        0
    }
}

/// The sum of the expected sizes of the operations that need a download.
pub open spec fn total_download_size(operations: Seq<FileOperationView>) -> int
    decreases operations.len(),
{
    if operations.len() == 0 {
        0
    } else {
        total_download_size(operations.drop_last()) + download_need(operations.last())
    }
}

/// The sum, over the operations that need a download, of the expected size
/// less the size found.
pub open spec fn disk_space_change(operations: Seq<FileOperationView>) -> int
    decreases operations.len(),
{
    if operations.len() == 0 {
        0
    } else {
        disk_space_change(operations.drop_last()) + space_need(operations.last())
    }
}

/// The reconciliation of one manifest against one directory.
#[derive(Debug)]
pub struct Transaction {
    operations: Vec<FileOperation>,
    manifest_version: String,
    manifest_uid: String,
    /// The directory that the paths of the manifest are relative to.
    pub base_path: String,
}

/// A transaction as a value of the model.
pub struct TransactionView {
    /// One operation for each expected file, in the order of the manifest.
    pub operations: Seq<FileOperationView>,
    pub version: Seq<char>,
    pub uid: Seq<char>,
    pub base_path: Seq<char>,
}

impl View for Transaction {
    type V = TransactionView;

    closed spec fn view(&self) -> TransactionView {
        TransactionView {
            operations: operations_view(self.operations@),
            version: self.manifest_version@,
            uid: self.manifest_uid@,
            base_path: self.base_path@,
        }
    }
}

impl Clone for Transaction {
    fn clone(&self) -> (copy: Transaction)
        ensures
            copy@ == self@,
    {
        let mut operations: Vec<FileOperation> = Vec::new();
        let mut i: usize = 0;
        while i < self.operations.len()
            invariant
                i <= self.operations.len(),
                operations@.len() == i,
                forall|j: int| 0 <= j < i ==> (#[trigger] operations@[j])@ == self.operations@[j]@,
            decreases self.operations.len() - i,
        {
            operations.push(self.operations[i].clone());
            i = i + 1;
        }
        assert(operations_view(operations@) =~= operations_view(self.operations@));
        Transaction {
            operations,
            manifest_version: self.manifest_version.clone(),
            manifest_uid: self.manifest_uid.clone(),
            base_path: self.base_path.clone(),
        }
    }
}

impl TransactionView {
    /// Every operation is well formed, and both totals can be held as
    /// signed sizes.
    pub open spec fn wf(self) -> bool {
        &&& forall|i: int| 0 <= i < self.operations.len() ==> (#[trigger] self.operations[i]).wf()
        &&& total_download_size(self.operations) <= i64::MAX
        &&& disk_space_change(self.operations) >= i64::MIN
    }

    /// What reconciling `manifest` with the findings `locals` below
    /// `base_path` gives.
    pub open spec fn built(
        manifest: ManifestView,
        locals: Seq<LocalFileView>,
        base_path: Seq<char>,
    ) -> TransactionView {
        TransactionView {
            operations: classified_all(manifest.files, locals),
            version: manifest.version,
            uid: manifest.uid,
            base_path,
        }
    }

    /// A transaction can be built from these: the manifest is well formed,
    /// there is one finding for each file, and every size and both totals
    /// can be held as signed sizes.
    pub open spec fn accepts(manifest: ManifestView, locals: Seq<LocalFileView>) -> bool {
        &&& manifest.wf()
        &&& locals.len() == manifest.files.len()
        &&& forall|i: int| 0 <= i < locals.len() ==> (#[trigger] locals[i]).fits()
        &&& total_download_size(classified_all(manifest.files, locals)) <= i64::MAX
        &&& disk_space_change(classified_all(manifest.files, locals)) >= i64::MIN
    }
}

/// No download is needed where every expected size is a byte count: the
/// total is then not negative.
pub proof fn lemma_total_download_size_nonnegative(operations: Seq<FileOperationView>)
    requires
        forall|i: int|
            0 <= i < operations.len() ==> (#[trigger] operations[i]).patch_file.size >= 0,
    ensures
        total_download_size(operations) >= 0,
    decreases operations.len(),
{
    if operations.len() > 0 {
        lemma_total_download_size_nonnegative(operations.drop_last());
    }
}

/// With sizes that are byte counts, no more space is needed than is
/// downloaded, and the total to download is not negative.
pub proof fn lemma_totals_fit(operations: Seq<FileOperationView>)
    requires
        forall|i: int| 0 <= i < operations.len() ==> (#[trigger] operations[i]).wf(),
    ensures
        disk_space_change(operations) <= total_download_size(operations),
        0 <= total_download_size(operations),
{
    lemma_disk_space_change_bounds(operations);
}

/// With sizes that are byte counts, the disk-space change lies between the
/// negated sum of the sizes found and the total to download.
proof fn lemma_disk_space_change_bounds(operations: Seq<FileOperationView>)
    requires
        forall|i: int| 0 <= i < operations.len() ==> (#[trigger] operations[i]).wf(),
    ensures
        disk_space_change(operations) <= total_download_size(operations),
        -operations.len() * i64::MAX <= disk_space_change(operations),
        0 <= total_download_size(operations) <= operations.len() * i64::MAX,
    decreases operations.len(),
{
    if operations.len() > 0 {
        let rest = operations.drop_last();
        lemma_disk_space_change_bounds(rest);
        assert(operations.last().wf());
        assert(rest.len() * i64::MAX + i64::MAX == operations.len() * i64::MAX) by (nonlinear_arith)
            requires
                rest.len() + 1 == operations.len(),
        ;
    } else {
        assert(operations.len() * i64::MAX == 0) by (nonlinear_arith)
            requires
                operations.len() == 0,
        ;
    }
}

impl Transaction {
    fn sum_download(operations: &Vec<FileOperation>) -> (total: i128)
        requires
            forall|i: int| 0 <= i < operations@.len() ==> (#[trigger] operations@[i])@.wf(),
        ensures
            total == total_download_size(operations_view(operations@)),
    {
        let ghost all = operations_view(operations@);
        let mut total: i128 = 0;
        let mut i: usize = 0;
        assert(all.take(0) =~= Seq::<FileOperationView>::empty());
        while i < operations.len()
            invariant
                i <= operations.len(),
                all == operations_view(operations@),
                forall|j: int| 0 <= j < operations@.len() ==> (#[trigger] operations@[j])@.wf(),
                total == total_download_size(all.take(i as int)),
                0 <= total <= i * i64::MAX,
            decreases operations.len() - i,
        {
            let operation = &operations[i];
            proof {
                assert(all.take(i + 1).drop_last() =~= all.take(i as int));
                assert(all.take(i + 1).last() == operation@);
                assert(operation@.wf());
                assert(i * i64::MAX + i64::MAX == (i + 1) * i64::MAX) by (nonlinear_arith);
                assert((i + 1) * i64::MAX <= usize::MAX * i64::MAX) by (nonlinear_arith)
                    requires
                        i + 1 <= usize::MAX,
                ;
            }
            if operation.status() != Status::Present {
                total = total + operation.patch_file().size as i128;
            }
            i = i + 1;
        }
        assert(all.take(i as int) =~= all);
        total
    }

    fn sum_space(operations: &Vec<FileOperation>) -> (change: i128)
        requires
            forall|i: int| 0 <= i < operations@.len() ==> (#[trigger] operations@[i])@.wf(),
        ensures
            change == disk_space_change(operations_view(operations@)),
    {
        let ghost all = operations_view(operations@);
        let mut change: i128 = 0;
        let mut i: usize = 0;
        assert(all.take(0) =~= Seq::<FileOperationView>::empty());
        while i < operations.len()
            invariant
                i <= operations.len(),
                all == operations_view(operations@),
                forall|j: int| 0 <= j < operations@.len() ==> (#[trigger] operations@[j])@.wf(),
                change == disk_space_change(all.take(i as int)),
                -i * i64::MAX <= change <= i * i64::MAX,
            decreases operations.len() - i,
        {
            let operation = &operations[i];
            proof {
                assert(all.take(i + 1).drop_last() =~= all.take(i as int));
                assert(all.take(i + 1).last() == operation@);
                assert(operation@.wf());
                assert(i * i64::MAX + i64::MAX == (i + 1) * i64::MAX) by (nonlinear_arith);
                assert((i + 1) * i64::MAX <= usize::MAX * i64::MAX) by (nonlinear_arith)
                    requires
                        i + 1 <= usize::MAX,
                ;
            }
            if operation.status() != Status::Present {
                change = change + (operation.patch_file().size as i128 - operation.size() as i128);
            }
            i = i + 1;
        }
        assert(all.take(i as int) =~= all);
        change
    }

    fn assemble(manifest: Manifest, locals: Vec<LocalFile>, base_path: String) -> (transaction:
        Transaction)
        requires
            manifest@.wf(),
            locals@.len() == manifest@.files.len(),
            forall|i: int| 0 <= i < locals@.len() ==> (#[trigger] locals_view(locals@)[i]).fits(),
        ensures
            transaction@ == TransactionView::built(manifest@, locals_view(locals@), base_path@),
            forall|i: int|
                0 <= i < transaction@.operations.len() ==> (
                #[trigger] transaction@.operations[i]).wf(),
    {
        let operations = FileOperation::process(&manifest, &locals);
        proof {
            let all = operations_view(operations@);
            assert forall|i: int| 0 <= i < all.len() implies (#[trigger] all[i]).wf() by {
                assert(manifest@.files[i].wf());
                assert(locals_view(locals@)[i].fits());
                lemma_classified_wf(manifest@.files[i], locals_view(locals@)[i]);
            }
        }
        Transaction {
            operations,
            manifest_version: manifest.version,
            manifest_uid: manifest.uid,
            base_path,
        }
    }

    /// Reconciles `manifest` with `locals`, the findings on disk below
    /// `base_path` for its files, in their order.
    pub fn new(manifest: Manifest, locals: Vec<LocalFile>, base_path: String) -> (transaction:
        Transaction)
        requires
            TransactionView::accepts(manifest@, locals_view(locals@)),
        ensures
            transaction@ == TransactionView::built(manifest@, locals_view(locals@), base_path@),
            transaction@.wf(),
    {
        Transaction::assemble(manifest, locals, base_path)
    }

    /// Reconciles `manifest` with `locals` where a transaction can be built
    /// from them, and returns nothing where none can.
    pub fn try_new(manifest: Manifest, locals: Vec<LocalFile>, base_path: String) -> (built: Option<
        Transaction,
    >)
        ensures
            built is Some <==> TransactionView::accepts(manifest@, locals_view(locals@)),
            built matches Some(transaction) ==> transaction@ == TransactionView::built(
                manifest@,
                locals_view(locals@),
                base_path@,
            ) && transaction@.wf(),
    {
        if !manifest.is_well_formed() || locals.len() != manifest.files.len() {
            return None;
        }
        let mut i: usize = 0;
        while i < locals.len()
            invariant
                i <= locals.len(),
                forall|j: int| 0 <= j < i ==> (#[trigger] locals_view(locals@)[j]).fits(),
            decreases locals.len() - i,
        {
            match &locals[i] {
                LocalFile::Absent => {},
                LocalFile::Found { digest, size } => {
                    if *size > i64::MAX as u64 {
                        assert(!locals_view(locals@)[i as int].fits());
                        return None;
                    }
                },
            }
            i = i + 1;
        }
        let transaction = Transaction::assemble(manifest, locals, base_path);
        proof {
            assert forall|i: int| 0 <= i < transaction.operations@.len() implies (
            #[trigger] transaction.operations@[i])@.wf() by {
                assert(transaction@.operations[i].wf());
            }
        }
        let total = Transaction::sum_download(&transaction.operations);
        let change = Transaction::sum_space(&transaction.operations);
        if total > i64::MAX as i128 || change < i64::MIN as i128 {
            return None;
        }
        Some(transaction)
    }

    fn select(&self, status: Status) -> (found: Vec<&FileOperation>)
        ensures
            borrowed_view(found@) == with_status(self@.operations, status),
    {
        let ghost all = self@.operations;
        let mut found: Vec<&FileOperation> = Vec::new();
        let mut i: usize = 0;
        proof {
            reveal(Seq::filter);
            assert(all.take(0) =~= Seq::<FileOperationView>::empty());
            assert(borrowed_view(found@) =~= with_status(all.take(0), status));
        }
        while i < self.operations.len()
            invariant
                i <= self.operations.len(),
                all == self@.operations,
                borrowed_view(found@) == with_status(all.take(i as int), status),
            decreases self.operations.len() - i,
        {
            let operation = &self.operations[i];
            let ghost before = borrowed_view(found@);
            let wanted = operation.status() == status;
            if wanted {
                found.push(operation);
            }
            proof {
                reveal(Seq::filter);
                assert(all.take(i + 1).drop_last() =~= all.take(i as int));
                assert(all.take(i + 1).last() == operation@);
                if wanted {
                    assert(borrowed_view(found@) =~= before.push(operation@));
                } else {
                    assert(borrowed_view(found@) =~= before);
                }
            }
            i = i + 1;
        }
        assert(all.take(i as int) =~= all);
        found
    }

    /// The version of the manifest that was reconciled.
    pub fn version(&self) -> (version: &String)
        ensures
            version@ == self@.version,
    {
        &self.manifest_version
    }

    /// The identifier of the manifest that was reconciled.
    pub fn uid(&self) -> (uid: &String)
        ensures
            uid@ == self@.uid,
    {
        &self.manifest_uid
    }

    /// The directory that the paths of the manifest are relative to.
    pub fn base_path(&self) -> (base_path: &String)
        ensures
            base_path@ == self@.base_path,
    {
        &self.base_path
    }

    /// The operations whose file is present, in the order of the manifest.
    pub fn up_to_date(&self) -> (found: Vec<&FileOperation>)
        ensures
            borrowed_view(found@) == with_status(self@.operations, Status::Present),
    {
        self.select(Status::Present)
    }

    /// The operations whose file is out of date, in the order of the
    /// manifest.
    pub fn outdated(&self) -> (found: Vec<&FileOperation>)
        ensures
            borrowed_view(found@) == with_status(self@.operations, Status::OutOfDate),
    {
        self.select(Status::OutOfDate)
    }

    /// The operations whose file is missing, in the order of the manifest.
    pub fn missing(&self) -> (found: Vec<&FileOperation>)
        ensures
            borrowed_view(found@) == with_status(self@.operations, Status::Missing),
    {
        self.select(Status::Missing)
    }

    /// The operations that need a download, in the order of the manifest.
    pub fn pending(&self) -> (found: Vec<&FileOperation>)
        ensures
            borrowed_view(found@) == pending(self@.operations),
    {
        let ghost all = self@.operations;
        let mut found: Vec<&FileOperation> = Vec::new();
        let mut i: usize = 0;
        proof {
            reveal(Seq::filter);
            assert(all.take(0) =~= Seq::<FileOperationView>::empty());
            assert(borrowed_view(found@) =~= pending(all.take(0)));
        }
        while i < self.operations.len()
            invariant
                i <= self.operations.len(),
                all == self@.operations,
                borrowed_view(found@) == pending(all.take(i as int)),
            decreases self.operations.len() - i,
        {
            let operation = &self.operations[i];
            let ghost before = borrowed_view(found@);
            let wanted = operation.status() != Status::Present;
            if wanted {
                found.push(operation);
            }
            proof {
                reveal(Seq::filter);
                assert(all.take(i + 1).drop_last() =~= all.take(i as int));
                assert(all.take(i + 1).last() == operation@);
                if wanted {
                    assert(borrowed_view(found@) =~= before.push(operation@));
                } else {
                    assert(borrowed_view(found@) =~= before);
                }
            }
            i = i + 1;
        }
        assert(all.take(i as int) =~= all);
        found
    }

    /// How many operations need a download.
    pub fn pending_count(&self) -> (count: usize)
        ensures
            count == pending(self@.operations).len(),
    {
        self.pending().len()
    }

    /// Whether any operation needs a download.
    pub fn has_pending_operations(&self) -> (any: bool)
        ensures
            any == (pending(self@.operations).len() > 0),
            any == exists|i: int|
                0 <= i < self@.operations.len() && (#[trigger] self@.operations[i]).is_pending(),
    {
        proof {
            lemma_pending_nonempty(self@.operations);
        }
        self.pending_count() > 0
    }

    /// The number of bytes to download: the sum of the expected sizes of
    /// the operations that need a download.
    pub fn total_download_size(&self) -> (total: i64)
        requires
            self@.wf(),
        ensures
            total == total_download_size(self@.operations),
            total >= 0,
    {
        proof {
            assert forall|i: int| 0 <= i < self.operations@.len() implies (
            #[trigger] self.operations@[i])@.wf() by {
                assert(self@.operations[i].wf());
            }
            lemma_total_download_size_nonnegative(self@.operations);
        }
        let total = Transaction::sum_download(&self.operations);
        total as i64
    }

    /// By how many bytes the tree grows on disk when every pending file has
    /// been downloaded; negative where it shrinks.
    pub fn disk_space_change(&self) -> (change: i64)
        requires
            self@.wf(),
        ensures
            change == disk_space_change(self@.operations),
    {
        proof {
            assert forall|i: int| 0 <= i < self.operations@.len() implies (
            #[trigger] self.operations@[i])@.wf() by {
                assert(self@.operations[i].wf());
            }
            lemma_disk_space_change_bounds(self@.operations);
        }
        let change = Transaction::sum_space(&self.operations);
        change as i64
    }
}

/// Some operation needs a download exactly where the list of those that do
/// is not empty.
pub proof fn lemma_pending_nonempty(operations: Seq<FileOperationView>)
    ensures
        pending(operations).len() > 0 <==> exists|i: int|
            0 <= i < operations.len() && (#[trigger] operations[i]).is_pending(),
    decreases operations.len(),
{
    reveal(Seq::filter);
    if operations.len() > 0 {
        let rest = operations.drop_last();
        lemma_pending_nonempty(rest);
        if operations.last().is_pending() {
            assert(operations[operations.len() - 1].is_pending());
        } else if pending(rest).len() > 0 {
            let i = choose|i: int| 0 <= i < rest.len() && (#[trigger] rest[i]).is_pending();
            assert(operations[i].is_pending());
        } else {
            assert forall|i: int| 0 <= i < operations.len() implies !(
            #[trigger] operations[i]).is_pending() by {
                if i < rest.len() {
                    assert(rest[i] == operations[i]);
                }
            }
        }
    }
}

/// The sum of the expected sizes of a list of operations.
pub open spec fn sum_expected(operations: Seq<FileOperationView>) -> int
    decreases operations.len(),
{
    if operations.len() == 0 {
        0
    } else {
        sum_expected(operations.drop_last()) + operations.last().patch_file.size
    }
}

/// The sum of the sizes found on disk for a list of operations.
pub open spec fn sum_found(operations: Seq<FileOperationView>) -> int
    decreases operations.len(),
{
    if operations.len() == 0 {
        0
    } else {
        sum_found(operations.drop_last()) + operations.last().size
    }
}

/// The operations that need a download are those that are not present:
/// none of them is present, each is one of the operations, and every
/// operation that is not present is among them.
pub proof fn lemma_pending_are_the_not_present(operations: Seq<FileOperationView>)
    ensures
        forall|j: int|
            0 <= j < pending(operations).len() ==> (#[trigger] pending(operations)[j]).status
                != Status::Present,
        forall|j: int|
            0 <= j < pending(operations).len() ==> operations.contains(
                #[trigger] pending(operations)[j],
            ),
        forall|i: int|
            0 <= i < operations.len() && operations[i].status != Status::Present ==> pending(
                operations,
            ).contains(#[trigger] operations[i]),
{
    let keep = |operation: FileOperationView| operation.is_pending();
    assert forall|j: int| 0 <= j < pending(operations).len() implies (#[trigger] pending(
        operations,
    )[j]).status != Status::Present && operations.contains(pending(operations)[j]) by {
        operations.lemma_filter_pred(keep, j);
        assert(pending(operations).contains(pending(operations)[j]));
        operations.lemma_filter_contains_rev(keep, pending(operations)[j]);
    }
    assert forall|i: int|
        0 <= i < operations.len() && operations[i].status != Status::Present implies pending(
        operations,
    ).contains(#[trigger] operations[i]) by {
        operations.lemma_filter_contains(keep, i);
    }
}

/// A group holds the operations with its status, and no others: each of
/// its members has the status and is one of the operations, and every
/// operation with the status is among them.
pub proof fn lemma_group_members(operations: Seq<FileOperationView>, status: Status)
    ensures
        forall|j: int|
            0 <= j < with_status(operations, status).len() ==> (#[trigger] with_status(
                operations,
                status,
            )[j]).status == status,
        forall|j: int|
            0 <= j < with_status(operations, status).len() ==> operations.contains(
                #[trigger] with_status(operations, status)[j],
            ),
        forall|i: int|
            0 <= i < operations.len() && operations[i].status == status ==> with_status(
                operations,
                status,
            ).contains(#[trigger] operations[i]),
{
    let keep = |operation: FileOperationView| operation.status == status;
    let group = with_status(operations, status);
    assert forall|j: int| 0 <= j < group.len() implies (#[trigger] group[j]).status == status
        && operations.contains(group[j]) by {
        operations.lemma_filter_pred(keep, j);
        assert(group.contains(group[j]));
        operations.lemma_filter_contains_rev(keep, group[j]);
    }
    assert forall|i: int|
        0 <= i < operations.len() && operations[i].status == status implies group.contains(
        #[trigger] operations[i],
    ) by {
        operations.lemma_filter_contains(keep, i);
    }
}

/// The total to download is the sum of the expected sizes of the
/// operations that need a download, and the disk-space change is that sum
/// less the sum of the sizes found for them.
pub proof fn lemma_totals_are_sums_over_pending(operations: Seq<FileOperationView>)
    ensures
        total_download_size(operations) == sum_expected(pending(operations)),
        disk_space_change(operations) == sum_expected(pending(operations)) - sum_found(
            pending(operations),
        ),
    decreases operations.len(),
{
    reveal(Seq::filter);
    if operations.len() > 0 {
        let rest = operations.drop_last();
        lemma_totals_are_sums_over_pending(rest);
        if operations.last().is_pending() {
            assert(pending(operations) == pending(rest).push(operations.last()));
            assert(pending(operations).drop_last() =~= pending(rest));
        }
    }
}

/// Every operation is in exactly one of the three groups: the groups hold
/// as many operations as there are, and those that need a download are
/// the out-of-date and the missing ones together.
pub proof fn lemma_groups_partition(operations: Seq<FileOperationView>)
    ensures
        with_status(operations, Status::Present).len() + with_status(
            operations,
            Status::OutOfDate,
        ).len() + with_status(operations, Status::Missing).len() == operations.len(),
        pending(operations).len() == with_status(operations, Status::OutOfDate).len()
            + with_status(operations, Status::Missing).len(),
    decreases operations.len(),
{
    reveal(Seq::filter);
    if operations.len() > 0 {
        lemma_groups_partition(operations.drop_last());
    }
}

} // verus!
