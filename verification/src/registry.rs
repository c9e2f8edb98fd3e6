//! Tables of records that are found by their bus handle.
//!
//! Every table of the service (sessions, cast jobs, input workers) is a
//! vector whose entries carry the object path they were created for.  The
//! functions here look an entry up by that path and take it out again.

use vstd::prelude::*;

verus! {

/// A record that is filed under a bus object path.
pub trait Handled {
    /// The object path this record is filed under.
    spec fn handle(&self) -> Seq<char>;

    /// Tests whether this record is filed under `path`.
    fn handle_is(&self, path: &String) -> (same: bool)
        ensures
            same == (self.handle() == path@),
    ;
}

/// No record of `table` is filed under `path`.
pub open spec fn absent<T: Handled>(table: Seq<T>, path: Seq<char>) -> bool {
    forall|i: int| 0 <= i < table.len() ==> (#[trigger] table[i]).handle() != path
}

/// `index` is the place of the first record of `table` filed under `path`.
pub open spec fn first_at<T: Handled>(table: Seq<T>, path: Seq<char>, index: int) -> bool {
    &&& 0 <= index < table.len()
    &&& table[index].handle() == path
    &&& absent(table.take(index), path)
}

/// No two records of `table` are filed under the same path.
pub open spec fn distinct_handles<T: Handled>(table: Seq<T>) -> bool {
    forall|i: int, j: int|
        0 <= i < j < table.len() ==> (#[trigger] table[i]).handle() != (#[trigger] table[j]).handle()
}

/// The place of the first record of `table` filed under `path`, if there
/// is one.
pub open spec fn spec_position<T: Handled>(table: Seq<T>, path: Seq<char>) -> Option<int> {
    if absent(table, path) {
        None
    } else {
        Some(choose|index: int| first_at(table, path, index))
    }
}

/// There is one first place at most, and `spec_position` names it.
pub proof fn lemma_position<T: Handled>(table: Seq<T>, path: Seq<char>, index: int)
    requires
        first_at(table, path, index),
    ensures
        spec_position(table, path) == Some(index),
{
    let chosen = choose|i: int| first_at(table, path, i);
    if chosen < index {
        assert(table.take(index)[chosen] == table[chosen]);
    }
    if index < chosen {
        assert(table.take(chosen)[index] == table[index]);
    }
}

/// A table either lacks a path or has a first place for it.
pub proof fn lemma_position_found<T: Handled>(table: Seq<T>, path: Seq<char>)
    ensures
        match spec_position(table, path) {
            Some(index) => first_at(table, path, index),
            None => absent(table, path),
        },
    decreases table.len(),
{
    if !absent(table, path) {
        let any = choose|i: int| 0 <= i < table.len() && (#[trigger] table[i]).handle() == path;
        lemma_has_first(table, path, any);
    }
}

/// Where some record is filed under `path`, one of them comes first.
pub proof fn lemma_has_first<T: Handled>(table: Seq<T>, path: Seq<char>, any: int)
    requires
        0 <= any < table.len(),
        table[any].handle() == path,
    ensures
        exists|index: int| first_at(table, path, index),
    decreases any,
{
    if absent(table.take(any), path) {
        assert(first_at(table, path, any));
    } else {
        let earlier = choose|i: int|
            0 <= i < table.take(any).len() && (#[trigger] table.take(any)[i]).handle() == path;
        assert(table.take(any)[earlier] == table[earlier]);
        lemma_has_first(table, path, earlier);
    }
}

/// The place of the first record filed under `path`, if there is one.
pub fn position<T: Handled>(table: &Vec<T>, path: &String) -> (found: Option<usize>)
    ensures
        match found {
            Some(index) => first_at(table@, path@, index as int) && spec_position(table@, path@)
                == Some(index as int),
            None => absent(table@, path@) && spec_position(table@, path@).is_none(),
        },
{
    let mut index: usize = 0;
    while index < table.len()
        invariant
            index <= table.len(),
            absent(table@.take(index as int), path@),
        decreases table.len() - index,
    {
        if table[index].handle_is(path) {
            proof {
                lemma_position(table@, path@, index as int);
            }
            return Some(index);
        }
        proof {
            let longer = table@.take(index as int + 1);
            assert forall|i: int| 0 <= i < longer.len() implies (#[trigger] longer[i]).handle()
                != path@ by {
                if i < index as int {
                    assert(longer[i] == table@.take(index as int)[i]);
                }
            }
        }
        index = index + 1;
    }
    proof {
        assert(table@.take(index as int) =~= table@);
    }
    None
}

/// Takes the first record filed under `path` out of the table.
///
/// The other records keep their order.  Where no record is filed under
/// `path` the table is left as it was.
pub fn take_out<T: Handled>(table: &mut Vec<T>, path: &String) -> (taken: Option<T>)
    ensures
        match spec_position(old(table)@, path@) {
            Some(index) => {
                &&& first_at(old(table)@, path@, index)
                &&& taken == Some(old(table)@[index])
                &&& final(table)@ == old(table)@.remove(index)
            },
            None => absent(old(table)@, path@) && taken.is_none() && final(table)@ == old(table)@,
        },
        final(table)@ == spec_without(old(table)@, path@),
        distinct_handles(old(table)@) ==> distinct_handles(final(table)@) && absent(
            final(table)@,
            path@,
        ),
{
    match position(table, path) {
        Some(index) => {
            proof {
                if distinct_handles(table@) {
                    lemma_remove_clears(table@, path@, index as int);
                }
            }
            let record = table.remove(index);
            Some(record)
        },
        None => None,
    }
}

/// The table without its first record filed under `path`.
pub open spec fn spec_without<T: Handled>(table: Seq<T>, path: Seq<char>) -> Seq<T> {
    match spec_position(table, path) {
        Some(index) => table.remove(index),
        None => table,
    }
}

/// A table with distinct handles has no record left under a path once the
/// first one was taken out.
pub proof fn lemma_without_is_absent<T: Handled>(table: Seq<T>, path: Seq<char>)
    requires
        distinct_handles(table),
    ensures
        absent(spec_without(table, path), path),
        distinct_handles(spec_without(table, path)),
{
    lemma_position_found(table, path);
    match spec_position(table, path) {
        Some(index) => {
            lemma_remove_clears(table, path, index);
        },
        None => {},
    }
}

/// Taking a record out of a table with distinct handles leaves none filed
/// under its path, and the rest still distinct.
pub proof fn lemma_remove_clears<T: Handled>(table: Seq<T>, path: Seq<char>, index: int)
    requires
        distinct_handles(table),
        first_at(table, path, index),
    ensures
        absent(table.remove(index), path),
        distinct_handles(table.remove(index)),
{
    let rest = table.remove(index);
    assert forall|i: int| 0 <= i < rest.len() implies (#[trigger] rest[i]).handle() != path by {
        if i < index {
            assert(rest[i] == table[i]);
        } else {
            assert(rest[i] == table[i + 1]);
        }
    }
    assert forall|i: int, j: int| 0 <= i < j < rest.len() implies (#[trigger] rest[i]).handle() != (
    #[trigger] rest[j]).handle() by {
        let a = if i < index { i } else { i + 1 };
        let b = if j < index { j } else { j + 1 };
        assert(rest[i] == table[a]);
        assert(rest[j] == table[b]);
    }
}

/// Adding a record under a path that the table lacks keeps the handles
/// distinct.
pub proof fn lemma_push_distinct<T: Handled>(table: Seq<T>, record: T)
    requires
        distinct_handles(table),
        absent(table, record.handle()),
    ensures
        distinct_handles(table.push(record)),
{
    let longer = table.push(record);
    assert forall|i: int, j: int| 0 <= i < j < longer.len() implies (#[trigger] longer[i]).handle()
        != (#[trigger] longer[j]).handle() by {
        assert(longer[i] == table[i]);
        if j < table.len() {
            assert(longer[j] == table[j]);
        }
    }
}

} // verus!
