//! Dataset index: turns a directory listing of a dataset split into an
//! ordered, indexable list of labeled items.
//!
//! Class label ids are assigned by the lexicographic rank (byte order,
//! 0-based) of the class directory name, and each file of a class becomes
//! one item carrying that label. The file-system scan itself happens
//! outside this crate; it hands in one `ClassEntry` per class directory,
//! in any order.

use vstd::prelude::*;

verus! {

/// Square resolution (width and height) every image is resized to before
/// it enters a batch.
pub const IMAGE_SIZE: usize = 128;

/// One class directory of a split: its name (as raw bytes, the order key)
/// and the paths of the image files found directly inside it.
pub struct ClassEntry {
    pub name: Vec<u8>,
    pub files: Vec<String>,
}

/// One labeled image of a dataset split.
pub struct DisasterImageItem {
    pub image_path: String,
    pub label: usize,
    pub is_train: bool,
}

/// Byte-wise lexicographic order: `a` is less than or equal to `b`.
pub open spec fn lex_le(a: Seq<u8>, b: Seq<u8>) -> bool
    decreases a.len(),
{
    if a.len() == 0 {
        true
    } else if b.len() == 0 {
        false
    } else if a[0] < b[0] {
        true
    } else if a[0] > b[0] {
        false
    } else {
        lex_le(a.skip(1), b.skip(1))
    }
}

/// Decides `lex_le` on byte vectors.
pub fn lex_le_bytes(a: &Vec<u8>, b: &Vec<u8>) -> (r: bool)
    ensures
        r == lex_le(a@, b@),
{
    let mut i: usize = 0;
    proof {
        assert(a@.skip(0) =~= a@);
        assert(b@.skip(0) =~= b@);
    }
    while i < a.len() && i < b.len()
        invariant
            i <= a@.len(),
            i <= b@.len(),
            lex_le(a@, b@) == lex_le(a@.skip(i as int), b@.skip(i as int)),
        decreases a@.len() - i,
    {
        if a[i] < b[i] {
            return true;
        }
        if a[i] > b[i] {
            return false;
        }
        proof {
            assert(a@.skip(i as int).skip(1) =~= a@.skip(i as int + 1));
            assert(b@.skip(i as int).skip(1) =~= b@.skip(i as int + 1));
        }
        i += 1;
    }
    i == a.len()
}

/// Insertion of one entry into a name-sorted prefix, keeping the order.
pub open spec fn insert_sorted(e: ClassEntry, s: Seq<ClassEntry>) -> Seq<ClassEntry>
    decreases s.len(),
{
    if s.len() == 0 {
        seq![e]
    } else if lex_le(e.name@, s[0].name@) {
        seq![e] + s
    } else {
        seq![s[0]] + insert_sorted(e, s.skip(1))
    }
}

/// Insertion sort of class entries by name, in byte-lexicographic order.
pub open spec fn sort_classes(s: Seq<ClassEntry>) -> Seq<ClassEntry>
    decreases s.len(),
{
    if s.len() == 0 {
        Seq::<ClassEntry>::empty()
    } else {
        insert_sorted(s.last(), sort_classes(s.drop_last()))
    }
}

/// Byte-lexicographic order is total.
pub proof fn lemma_lex_le_total(a: Seq<u8>, b: Seq<u8>)
    ensures
        lex_le(a, b) || lex_le(b, a),
    decreases a.len(),
{
    if a.len() > 0 && b.len() > 0 && a[0] == b[0] {
        lemma_lex_le_total(a.skip(1), b.skip(1));
    }
}

/// Byte-lexicographic order is transitive.
pub proof fn lemma_lex_le_trans(a: Seq<u8>, b: Seq<u8>, c: Seq<u8>)
    requires
        lex_le(a, b),
        lex_le(b, c),
    ensures
        lex_le(a, c),
    decreases a.len(),
{
    if a.len() > 0 && b.len() > 0 && c.len() > 0 && a[0] == b[0] && b[0] == c[0] {
        lemma_lex_le_trans(a.skip(1), b.skip(1), c.skip(1));
    }
}

/// The entries stand in byte-lexicographic order of their names.
pub open spec fn classes_sorted(s: Seq<ClassEntry>) -> bool {
    forall|i: int, j: int| 0 <= i < j < s.len() ==> lex_le(s[i].name@, s[j].name@)
}

proof fn lemma_insert_sorted_lower_bound(lo: Seq<u8>, e: ClassEntry, s: Seq<ClassEntry>)
    requires
        lex_le(lo, e.name@),
        forall|k: int| 0 <= k < s.len() ==> lex_le(lo, #[trigger] s[k].name@),
    ensures
        forall|k: int|
            0 <= k < insert_sorted(e, s).len() ==> lex_le(
                lo,
                #[trigger] insert_sorted(e, s)[k].name@,
            ),
    decreases s.len(),
{
    let r = insert_sorted(e, s);
    if s.len() == 0 {
        assert(r[0] == e);
    } else if lex_le(e.name@, s[0].name@) {
        assert forall|k: int| 0 <= k < r.len() implies lex_le(lo, #[trigger] r[k].name@) by {
            if k > 0 {
                assert(r[k] == s[k - 1]);
            }
        }
    } else {
        assert forall|k: int| 0 <= k < s.skip(1).len() implies lex_le(
            lo,
            #[trigger] s.skip(1)[k].name@,
        ) by {
            assert(s.skip(1)[k] == s[k + 1]);
        }
        lemma_insert_sorted_lower_bound(lo, e, s.skip(1));
        assert forall|k: int| 0 <= k < r.len() implies lex_le(lo, #[trigger] r[k].name@) by {
            if k == 0 {
                assert(r[0] == s[0]);
            } else {
                assert(r[k] == insert_sorted(e, s.skip(1))[k - 1]);
            }
        }
    }
}

proof fn lemma_insert_sorted_keeps_sorted(e: ClassEntry, s: Seq<ClassEntry>)
    requires
        classes_sorted(s),
    ensures
        classes_sorted(insert_sorted(e, s)),
    decreases s.len(),
{
    let r = insert_sorted(e, s);
    if s.len() == 0 {
    } else if lex_le(e.name@, s[0].name@) {
        assert forall|i: int, j: int| 0 <= i < j < r.len() implies lex_le(
            r[i].name@,
            r[j].name@,
        ) by {
            if i == 0 {
                assert(r[j] == s[j - 1]);
                if j > 1 {
                    lemma_lex_le_trans(e.name@, s[0].name@, s[j - 1].name@);
                }
            } else {
                assert(r[i] == s[i - 1] && r[j] == s[j - 1]);
            }
        }
    } else {
        lemma_lex_le_total(e.name@, s[0].name@);
        assert forall|i: int, j: int| 0 <= i < j < s.skip(1).len() implies lex_le(
            s.skip(1)[i].name@,
            s.skip(1)[j].name@,
        ) by {
            assert(s.skip(1)[i] == s[i + 1] && s.skip(1)[j] == s[j + 1]);
        }
        lemma_insert_sorted_keeps_sorted(e, s.skip(1));
        assert forall|k: int| 0 <= k < s.skip(1).len() implies lex_le(
            s[0].name@,
            #[trigger] s.skip(1)[k].name@,
        ) by {
            assert(s.skip(1)[k] == s[k + 1]);
        }
        lemma_insert_sorted_lower_bound(s[0].name@, e, s.skip(1));
        let t = insert_sorted(e, s.skip(1));
        assert forall|i: int, j: int| 0 <= i < j < r.len() implies lex_le(
            r[i].name@,
            r[j].name@,
        ) by {
            if i == 0 {
                assert(r[j] == t[j - 1]);
            } else {
                assert(r[i] == t[i - 1] && r[j] == t[j - 1]);
            }
        }
    }
}

/// Law: sorting leaves the class entries in byte-lexicographic order of
/// their names, so the label a class receives — its position in the
/// sorted listing — is its lexicographic rank.
pub proof fn lemma_sort_classes_sorted(s: Seq<ClassEntry>)
    ensures
        classes_sorted(sort_classes(s)),
    decreases s.len(),
{
    if s.len() > 0 {
        lemma_sort_classes_sorted(s.drop_last());
        lemma_insert_sorted_keeps_sorted(s.last(), sort_classes(s.drop_last()));
    }
}

proof fn lemma_insert_sorted_at(e: ClassEntry, s: Seq<ClassEntry>, j: int)
    requires
        0 <= j <= s.len(),
        forall|k: int| 0 <= k < j ==> !lex_le(e.name@, s[k].name@),
        j < s.len() ==> lex_le(e.name@, s[j].name@),
    ensures
        insert_sorted(e, s) == s.insert(j, e),
    decreases j,
{
    if j == 0 {
        assert(insert_sorted(e, s) =~= s.insert(0, e));
    } else {
        assert(!lex_le(e.name@, s[0].name@));
        assert forall|k: int| 0 <= k < j - 1 implies !lex_le(e.name@, s.skip(1)[k].name@) by {
            assert(s.skip(1)[k] == s[k + 1]);
        }
        if j - 1 < s.skip(1).len() {
            assert(s.skip(1)[j - 1] == s[j]);
        }
        lemma_insert_sorted_at(e, s.skip(1), j - 1);
        assert(seq![s[0]] + s.skip(1).insert(j - 1, e) =~= s.insert(j, e));
    }
}

/// First position of `out` whose name is not below `name`.
fn find_insert_pos(out: &Vec<ClassEntry>, name: &Vec<u8>) -> (j: usize)
    ensures
        j <= out@.len(),
        forall|k: int| 0 <= k < j ==> !lex_le(name@, out@[k].name@),
        j < out@.len() ==> lex_le(name@, out@[j as int].name@),
{
    let mut j: usize = 0;
    while j < out.len()
        invariant
            j <= out@.len(),
            forall|k: int| 0 <= k < j ==> !lex_le(name@, out@[k].name@),
        decreases out@.len() - j,
    {
        if lex_le_bytes(name, &out[j].name) {
            return j;
        }
        j += 1;
    }
    j
}

fn sorted_insert(out: &mut Vec<ClassEntry>, e: ClassEntry)
    ensures
        final(out)@ == insert_sorted(e, old(out)@),
{
    let j = find_insert_pos(out, &e.name);
    proof {
        lemma_insert_sorted_at(e, out@, j as int);
    }
    out.insert(j, e);
}

/// Sorts class entries by name in byte-lexicographic order.
pub fn sort_class_entries(classes: Vec<ClassEntry>) -> (r: Vec<ClassEntry>)
    ensures
        r@ == sort_classes(classes@),
{
    let ghost all = classes@;
    let mut rest = classes;
    let mut out: Vec<ClassEntry> = Vec::new();
    let ghost mut done: int = 0;
    while rest.len() > 0
        invariant
            0 <= done <= all.len(),
            rest@ == all.skip(done),
            out@ == sort_classes(all.take(done)),
        decreases rest@.len(),
    {
        let e = rest.remove(0);
        proof {
            assert(e == all[done]);
            assert(rest@ =~= all.skip(done + 1));
        }
        sorted_insert(&mut out, e);
        proof {
            assert(all.take(done + 1).last() == all[done]);
            assert(all.take(done + 1).drop_last() =~= all.take(done));
            done = done + 1;
        }
    }
    proof {
        assert(all.take(done) =~= all);
    }
    out
}

/// The items of one class: one per file, all carrying the class label.
pub open spec fn class_items(c: ClassEntry, label: usize, is_train: bool) -> Seq<DisasterImageItem> {
    Seq::new(
        c.files@.len(),
        |i: int|
            DisasterImageItem {
                image_path: c.files@[i],
                label: label,
                is_train: is_train,
            },
    )
}

/// The items of a whole (already sorted) listing: each class contributes
/// its files in order, labeled with the class's position.
pub open spec fn items_of(s: Seq<ClassEntry>, is_train: bool) -> Seq<DisasterImageItem>
    decreases s.len(),
{
    if s.len() == 0 {
        Seq::<DisasterImageItem>::empty()
    } else {
        items_of(s.drop_last(), is_train) + class_items(
            s.last(),
            (s.len() - 1) as usize,
            is_train,
        )
    }
}

/// An ordered, indexable list of labeled image items for one split.
pub struct DisasterImageDataset {
    items: Vec<DisasterImageItem>,
}

impl View for DisasterImageDataset {
    type V = Seq<DisasterImageItem>;

    closed spec fn view(&self) -> Seq<DisasterImageItem> {
        self.items@
    }
}

impl DisasterImageDataset {
    /// Builds the index for one split from its directory listing: classes
    /// are sorted by name, each gets its rank as label, and every file of
    /// a class becomes one item. The result is a function of the listing
    /// alone, so building the same listing twice yields the same index.
    pub fn new_classification(classes: Vec<ClassEntry>, is_train: bool) -> (r: Self)
        ensures
            r@ == items_of(sort_classes(classes@), is_train),
    {
        let sorted = sort_class_entries(classes);
        let ghost sorted_seq = sorted@;
        let total = sorted.len();
        let mut rest = sorted;
        let mut items: Vec<DisasterImageItem> = Vec::new();
        let mut label: usize = 0;
        while rest.len() > 0
            invariant
                sorted_seq.len() == total,
                label as int == sorted_seq.len() - rest@.len(),
                rest@ == sorted_seq.skip(label as int),
                items@ == items_of(sorted_seq.take(label as int), is_train),
            decreases rest@.len(),
        {
            let c = rest.remove(0);
            let ghost c_snap = c;
            proof {
                assert(c_snap == sorted_seq[label as int]);
                assert(rest@ =~= sorted_seq.skip(label as int + 1));
            }
            let ClassEntry { name: _, files } = c;
            let ghost fseq = files@;
            let mut files = files;
            while files.len() > 0
                invariant
                    fseq == c_snap.files@,
                    files@.len() <= fseq.len(),
                    files@ == fseq.skip(fseq.len() - files@.len()),
                    items@ == items_of(sorted_seq.take(label as int), is_train) + class_items(
                        c_snap,
                        label,
                        is_train,
                    ).take(fseq.len() - files@.len()),
                decreases files@.len(),
            {
                let ghost fdone: int = fseq.len() - files@.len();
                let p = files.remove(0);
                proof {
                    assert(p == fseq[fdone]);
                    assert(files@ =~= fseq.skip(fdone + 1));
                }
                items.push(
                    DisasterImageItem { image_path: p, label: label, is_train: is_train },
                );
                proof {
                    assert(class_items(c_snap, label, is_train).take(fdone + 1) =~= class_items(
                        c_snap,
                        label,
                        is_train,
                    ).take(fdone).push(class_items(c_snap, label, is_train)[fdone]));
                }
            }
            proof {
                assert(class_items(c_snap, label, is_train).take(fseq.len() as int) =~= class_items(
                    c_snap,
                    label,
                    is_train,
                ));
                assert(sorted_seq.take(label as int + 1).last() == sorted_seq[label as int]);
                assert(sorted_seq.take(label as int + 1).drop_last() =~= sorted_seq.take(
                    label as int,
                ));
                assert(items@ == items_of(sorted_seq.take(label as int + 1), is_train));
            }
            label += 1;
        }
        proof {
            assert(sorted_seq.take(label as int) =~= sorted_seq);
        }
        DisasterImageDataset { items }
    }

    /// Number of items in the index.
    pub fn len(&self) -> (n: usize)
        ensures
            n == self@.len(),
    {
        self.items.len()
    }

    /// A copy of item `index`, or `None` when `index` is out of range.
    pub fn get(&self, index: usize) -> (r: Option<DisasterImageItem>)
        ensures
            index < self@.len() ==> r == Some(self@[index as int]),
            index >= self@.len() ==> r is None,
    {
        if index < self.items.len() {
            let it = &self.items[index];
            Some(
                DisasterImageItem {
                    image_path: it.image_path.clone(),
                    label: it.label,
                    is_train: it.is_train,
                },
            )
        } else {
            None
        }
    }
}

/// Law: the dataset index is a pure function of the split listing. Two
/// indexes built over the same listing hold the same items — the same
/// length, and the same label for each file path.
pub proof fn lemma_index_deterministic(
    classes: Seq<ClassEntry>,
    is_train: bool,
    d1: Seq<DisasterImageItem>,
    d2: Seq<DisasterImageItem>,
)
    requires
        d1 == items_of(sort_classes(classes), is_train),
        d2 == items_of(sort_classes(classes), is_train),
    ensures
        d1 == d2,
        d1.len() == d2.len(),
        forall|i: int| 0 <= i < d1.len() ==> d1[i] == d2[i],
{
}

/// Constructors of the three dataset splits: each builds the index of its
/// listing, and only training items carry `is_train = true`, so
/// augmentation downstream is the identity for validation and test.
pub trait DisasterLoader: Sized + View<V = Seq<DisasterImageItem>> {
    fn disaster_train(classes: Vec<ClassEntry>) -> (r: Self)
        ensures
            r@ == items_of(sort_classes(classes@), true),
    ;

    fn disaster_valid(classes: Vec<ClassEntry>) -> (r: Self)
        ensures
            r@ == items_of(sort_classes(classes@), false),
    ;

    fn disaster_test(classes: Vec<ClassEntry>) -> (r: Self)
        ensures
            r@ == items_of(sort_classes(classes@), false),
    ;
}

impl DisasterLoader for DisasterImageDataset {
    fn disaster_train(classes: Vec<ClassEntry>) -> Self {
        Self::new_classification(classes, true)
    }

    fn disaster_valid(classes: Vec<ClassEntry>) -> Self {
        Self::new_classification(classes, false)
    }

    fn disaster_test(classes: Vec<ClassEntry>) -> Self {
        Self::new_classification(classes, false)
    }
}

} // verus!
