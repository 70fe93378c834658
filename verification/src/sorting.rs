//! The order of names by which directory listings are sorted.

use vstd::prelude::*;
use crate::text::text_before;
use crate::tools::{inserted, lemma_inserted_at, sorted_by_name, FileInfoView};

verus! {

/// Of two texts, at most one comes before the other.
pub proof fn lemma_text_before_asymmetric(a: Seq<char>, b: Seq<char>)
    requires
        text_before(a, b),
    ensures
        !text_before(b, a),
    decreases a.len(),
{
    if a.len() > 0 && a[0] == b[0] {
        lemma_text_before_asymmetric(a.skip(1), b.skip(1));
    }
}

/// Where `a` does not come before `b`, nor `b` before `c`, `a` does not come
/// before `c`.
pub proof fn lemma_text_order_transitive(a: Seq<char>, b: Seq<char>, c: Seq<char>)
    requires
        !text_before(a, b),
        !text_before(b, c),
    ensures
        !text_before(a, c),
    decreases a.len(),
{
    if text_before(a, c) {
        if a.len() == 0 {
            assert(b.len() == 0);
        } else if b.len() == 0 {
            assert(text_before(b, c));
        } else {
            assert((a[0] as u32) >= (b[0] as u32));
            assert((b[0] as u32) >= (c[0] as u32));
            assert(a[0] as u32 == c[0] as u32);
            assert(a[0] as u32 == b[0] as u32);
            vstd::utf8::char_u32_cast(a[0], a[0] as u32);
            vstd::utf8::char_u32_cast(b[0], b[0] as u32);
            vstd::utf8::char_u32_cast(c[0], c[0] as u32);
            assert(a[0] == b[0] && b[0] == c[0]);
            lemma_text_order_transitive(a.skip(1), b.skip(1), c.skip(1));
        }
    }
}

/// No child comes behind one whose name comes after its own.
pub open spec fn in_name_order(files: Seq<FileInfoView>) -> bool {
    forall|i: int, j: int|
        0 <= i < j < files.len() ==> !text_before(
            (#[trigger] files[j]).name,
            (#[trigger] files[i]).name,
        )
}

/// The place at which a child goes into a sorted list.
pub open spec fn insert_position(sorted: Seq<FileInfoView>, file: FileInfoView) -> int
    decreases sorted.len(),
{
    if sorted.len() == 0 {
        0
    } else if text_before(file.name, sorted.last().name) {
        insert_position(sorted.drop_last(), file)
    } else {
        sorted.len() as int
    }
}

/// The child goes in at its place: before it stand children whose names do
/// not come after its own, behind it those whose names do.
pub proof fn lemma_insert_position(sorted: Seq<FileInfoView>, file: FileInfoView)
    ensures
        0 <= insert_position(sorted, file) <= sorted.len(),
        forall|k: int|
            insert_position(sorted, file) <= k < sorted.len() ==> text_before(
                file.name,
                (#[trigger] sorted[k]).name,
            ),
        insert_position(sorted, file) == 0 || !text_before(
            file.name,
            sorted[insert_position(sorted, file) - 1].name,
        ),
        inserted(sorted, file) == sorted.insert(insert_position(sorted, file), file),
    decreases sorted.len(),
{
    if sorted.len() > 0 && text_before(file.name, sorted.last().name) {
        let front = sorted.drop_last();
        lemma_insert_position(front, file);
        assert forall|k: int| insert_position(sorted, file) <= k < sorted.len() implies text_before(
            file.name,
            (#[trigger] sorted[k]).name,
        ) by {
            if k < front.len() {
                assert(text_before(file.name, front[k].name));
            }
        }
        assert(insert_position(sorted, file) == 0 || sorted[insert_position(sorted, file) - 1]
            == front[insert_position(sorted, file) - 1]);
    }
    lemma_inserted_at(sorted, file, insert_position(sorted, file));
}

/// A list in the order of its names stays so when a child is put into it.
pub proof fn lemma_inserted_keeps_order(sorted: Seq<FileInfoView>, file: FileInfoView)
    requires
        in_name_order(sorted),
    ensures
        in_name_order(inserted(sorted, file)),
{
    lemma_insert_position(sorted, file);
    let at = insert_position(sorted, file);
    let longer = sorted.insert(at, file);
    assert forall|i: int, j: int| 0 <= i < j < longer.len() implies !text_before(
        (#[trigger] longer[j]).name,
        (#[trigger] longer[i]).name,
    ) by {
        if i == at {
            assert(longer[j] == sorted[j - 1]);
            assert(text_before(file.name, sorted[j - 1].name));
            lemma_text_before_asymmetric(file.name, sorted[j - 1].name);
        } else if j == at {
            assert(longer[i] == sorted[i]);
            if i < at - 1 {
                assert(!text_before(sorted[at - 1].name, sorted[i].name));
                lemma_text_order_transitive(file.name, sorted[at - 1].name, sorted[i].name);
            }
        } else {
            let from_i = if i < at { i } else { i - 1 };
            let from_j = if j < at { j } else { j - 1 };
            assert(longer[i] == sorted[from_i]);
            assert(longer[j] == sorted[from_j]);
            assert(!text_before(sorted[from_j].name, sorted[from_i].name));
        }
    }
}

/// Sorting by name puts the children in the order of their names.
pub proof fn law_sorted_by_name_is_in_order(files: Seq<FileInfoView>)
    ensures
        in_name_order(sorted_by_name(files)),
    decreases files.len(),
{
    if files.len() > 0 {
        law_sorted_by_name_is_in_order(files.drop_last());
        lemma_inserted_keeps_order(sorted_by_name(files.drop_last()), files.last());
    }
}

/// Sorting by name neither loses nor adds a child.
pub proof fn law_sorted_by_name_keeps_the_children(files: Seq<FileInfoView>)
    ensures
        sorted_by_name(files).to_multiset() == files.to_multiset(),
        sorted_by_name(files).len() == files.len(),
    decreases files.len(),
{
    broadcast use vstd::seq_lib::to_multiset_build, vstd::seq_lib::to_multiset_insert;

    if files.len() > 0 {
        let front = files.drop_last();
        law_sorted_by_name_keeps_the_children(front);
        lemma_insert_position(sorted_by_name(front), files.last());
        assert(front.push(files.last()) =~= files);
    } else {
        assert(sorted_by_name(files) =~= files);
    }
}

} // verus!
