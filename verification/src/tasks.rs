//! The enumeration of work: which files of a folder are converted, in what
//! order, and into how many units each of them falls.
//!
//! A unit is the smallest piece of work: an image file is one unit, a PDF
//! has one unit for each of its pages.

use vstd::prelude::*;
use vstd::string::*;
use vstd::seq_lib::*;
use crate::config::ProcessingMode;
use crate::error::ConvertError;
use crate::names::{
    is_convertible_name,
    is_image_file_name,
    is_image_name,
    is_pdf_file_name,
    is_pdf_name,
};
use crate::text::{lemma_ordered_total, lemma_ordered_transitive, name_le, ordered};

verus! {

/// Which files of a folder a mode of the application takes.
#[derive(Clone, Copy, Debug, PartialEq, Eq, Structural)]
pub enum InputKind {
    /// Image files.
    Images,
    /// PDF files.
    Pdfs,
    /// Image files and PDF files.
    Convertible,
}

/// Whether a kind of input takes a file of the given name.
pub open spec fn accepts(kind: InputKind, name: Seq<char>) -> bool {
    match kind {
        InputKind::Images => is_image_name(name),
        InputKind::Pdfs => is_pdf_name(name),
        InputKind::Convertible => is_convertible_name(name),
    }
}

/// The texts of a sequence of strings.
pub open spec fn texts(names: Seq<String>) -> Seq<Seq<char>> {
    names.map_values(|name: String| name@)
}

/// The names that a kind of input takes, in the order in which they stand.
pub open spec fn accepted(kind: InputKind, names: Seq<Seq<char>>) -> Seq<Seq<char>>
    decreases names.len(),
{
    if names.len() == 0 {
        names
    } else if accepts(kind, names.last()) {
        accepted(kind, names.drop_last()).push(names.last())
    } else {
        accepted(kind, names.drop_last())
    }
}

/// Whether names stand in order.
pub open spec fn in_order(names: Seq<Seq<char>>) -> bool {
    forall|i: int, j: int| 0 <= i < j < names.len() ==> ordered(#[trigger] names[i], #[trigger] names[j])
}

/// Decides whether a kind of input takes a file of the given name.
pub fn accepts_name(kind: InputKind, name: &str) -> (taken: bool)
    ensures
        taken == accepts(kind, name@),
{
    match kind {
        InputKind::Images => is_image_file_name(name),
        InputKind::Pdfs => is_pdf_file_name(name),
        InputKind::Convertible => is_image_file_name(name) || is_pdf_file_name(name),
    }
}

/// Puts a name into a list that is in order, behind every name that comes
/// before it or is equal to it.
fn insert_in_order(list: &mut Vec<String>, name: String)
    requires
        in_order(texts(old(list)@)),
    ensures
        in_order(texts(final(list)@)),
        texts(final(list)@).to_multiset() == texts(old(list)@).to_multiset().insert(name@),
{
    let n = list.len();
    let mut p: usize = 0;
    while p < n && name_le(list[p].as_str(), name.as_str())
        invariant
            p <= n,
            n == list@.len(),
            list@ == old(list)@,
            forall|j: int| 0 <= j < p ==> ordered(#[trigger] list@[j]@, name@),
        decreases n - p,
    {
        p = p + 1;
    }
    let ghost before = texts(list@);
    list.insert(p, name);
    proof {
        let after = texts(list@);
        assert(after =~= before.insert(p as int, name@));
        to_multiset_insert(before, p as int, name@);
        assert forall|i: int, j: int| 0 <= i < j < after.len() implies ordered(
            #[trigger] after[i],
            #[trigger] after[j],
        ) by {
            if j < p {
                assert(after[i] == before[i] && after[j] == before[j]);
            } else if j == p {
                assert(after[i] == before[i]);
                assert(ordered(old(list)@[i]@, name@));
            } else if i == p {
                // The name at p in the old list comes after the new one,
                // and every later name comes after that one.
                assert(after[j] == before[j - 1]);
                assert(!ordered(before[p as int], name@));
                lemma_ordered_total(before[p as int], name@, 0);
                if j - 1 > p {
                    assert(ordered(before[p as int], before[j - 1]));
                    lemma_ordered_transitive(name@, before[p as int], before[j - 1], 0);
                }
            } else if i < p {
                assert(after[i] == before[i] && after[j] == before[j - 1]);
                if i < j - 1 {
                    assert(ordered(before[i], before[j - 1]));
                } else {
                    assert(i == j - 1);
                }
            } else {
                assert(after[i] == before[i - 1] && after[j] == before[j - 1]);
            }
        }
    }
}

/// Selects from the names of a folder those that a kind of input takes,
/// and puts them in order. The order depends on the names alone, so that
/// a folder is always processed in the same order.
pub fn select_names(names: &Vec<String>, kind: InputKind) -> (selected: Vec<String>)
    ensures
        in_order(texts(selected@)),
        texts(selected@).to_multiset() == accepted(kind, texts(names@)).to_multiset(),
{
    let mut selected: Vec<String> = Vec::new();
    let n = names.len();
    let mut i: usize = 0;
    assert(texts(names@).subrange(0, 0) =~= Seq::<Seq<char>>::empty());
    assert(texts(selected@) =~= Seq::<Seq<char>>::empty());
    while i < n
        invariant
            i <= n,
            n == names@.len(),
            in_order(texts(selected@)),
            texts(selected@).to_multiset() == accepted(
                kind,
                texts(names@).subrange(0, i as int),
            ).to_multiset(),
        decreases n - i,
    {
        let ghost prefix = texts(names@).subrange(0, i as int);
        let ghost longer = texts(names@).subrange(0, i + 1);
        proof {
            assert(longer.drop_last() =~= prefix);
            assert(longer.last() == names@[i as int]@);
        }
        if accepts_name(kind, names[i].as_str()) {
            let name = names[i].clone();
            insert_in_order(&mut selected, name);
            proof {
                to_multiset_build(accepted(kind, prefix), names@[i as int]@);
            }
        }
        i = i + 1;
    }
    assert(texts(names@).subrange(0, n as int) =~= texts(names@));
    selected
}

/// The names that a run works on: the one file of a single-file run, if its
/// name is taken, or the names of a folder that are taken, in order. A run
/// without any is an error of the input.
pub open spec fn inputs_listed(
    mode: ProcessingMode,
    kind: InputKind,
    single: Seq<char>,
    folder: Seq<Seq<char>>,
    r: Result<Vec<String>, ConvertError>,
) -> bool {
    match mode {
        ProcessingMode::SingleFile => if accepts(kind, single) {
            r matches Ok(list) && texts(list@) == seq![single]
        } else {
            r == Err::<Vec<String>, ConvertError>(ConvertError::Input)
        },
        ProcessingMode::Folder => if accepted(kind, folder).len() == 0 {
            r == Err::<Vec<String>, ConvertError>(ConvertError::Input)
        } else {
            r matches Ok(list) && in_order(texts(list@)) && texts(list@).to_multiset() == accepted(
                kind,
                folder,
            ).to_multiset()
        },
    }
}

/// Lists the names that a run works on. In a single-file run `single` is
/// the name of the file; in a folder run `folder` holds the names of the
/// folder's files.
pub fn list_inputs(mode: ProcessingMode, kind: InputKind, single: &str, folder: &Vec<String>) -> (r:
    Result<Vec<String>, ConvertError>)
    ensures
        inputs_listed(mode, kind, single@, texts(folder@), r),
{
    match mode {
        ProcessingMode::SingleFile => {
            if accepts_name(kind, single) {
                let mut list: Vec<String> = Vec::new();
                list.push(String::from_str(single));
                assert(texts(list@) =~= seq![single@]);
                Ok(list)
            } else {
                Err(ConvertError::Input)
            }
        },
        ProcessingMode::Folder => {
            let list = select_names(folder, kind);
            proof {
                to_multiset_len(texts(list@));
                to_multiset_len(accepted(kind, texts(folder@)));
            }
            if list.len() == 0 {
                Err(ConvertError::Input)
            } else {
                Ok(list)
            }
        },
    }
}

/// What is known of the pages of a source file.
#[derive(Clone, Copy, Debug, PartialEq, Eq, Structural)]
pub enum PageCount {
    /// The file is an image: it has no pages.
    NotPdf,
    /// The file is a PDF with this many pages.
    Known(usize),
    /// The file is a PDF whose pages could not be counted.
    Unknown,
}

/// The number of units of a source file: one for an image, one for each
/// page of a PDF, and one for a PDF whose pages could not be counted.
pub open spec fn units_of(pages: PageCount) -> nat {
    match pages {
        PageCount::NotPdf => 1,
        PageCount::Known(count) => count as nat,
        PageCount::Unknown => 1,
    }
}

/// The number of units of a batch: the sum over its files.
pub open spec fn unit_total(files: Seq<PageCount>) -> nat
    decreases files.len(),
{
    if files.len() == 0 {
        0
    } else {
        unit_total(files.drop_last()) + units_of(files.last())
    }
}

/// The number of units of a source file.
pub fn unit_count(pages: PageCount) -> (units: usize)
    ensures
        units == units_of(pages),
{
    match pages {
        PageCount::NotPdf => 1,
        PageCount::Known(count) => count,
        PageCount::Unknown => 1,
    }
}

/// Counts the units of a batch before any of them is processed. There is
/// no count where the sum is more than a `usize` holds.
pub fn count_units(files: &Vec<PageCount>) -> (total: Option<usize>)
    ensures
        total is Some <==> unit_total(files@) <= usize::MAX,
        total matches Some(t) ==> t == unit_total(files@),
{
    let n = files.len();
    let mut total: usize = 0;
    let mut i: usize = 0;
    assert(files@.subrange(0, 0) =~= Seq::<PageCount>::empty());
    while i < n
        invariant
            i <= n,
            n == files@.len(),
            total == unit_total(files@.subrange(0, i as int)),
        decreases n - i,
    {
        proof {
            assert(files@.subrange(0, i + 1).drop_last() =~= files@.subrange(0, i as int));
        }
        match total.checked_add(unit_count(files[i])) {
            Some(sum) => {
                total = sum;
            },
            None => {
                proof {
                    lemma_unit_total_grows(files@, i + 1);
                }
                return None;
            },
        }
        i = i + 1;
    }
    assert(files@.subrange(0, n as int) =~= files@);
    Some(total)
}

/// The units of the first files of a batch are no more than those of all.
proof fn lemma_unit_total_grows(files: Seq<PageCount>, count: int)
    requires
        0 <= count <= files.len(),
    ensures
        unit_total(files.subrange(0, count)) <= unit_total(files),
    decreases files.len() - count,
{
    if count < files.len() {
        assert(files.subrange(0, count + 1).drop_last() =~= files.subrange(0, count));
        lemma_unit_total_grows(files, count + 1);
    } else {
        assert(files.subrange(0, count) =~= files);
    }
}

/// One piece of work: a source file and, for a PDF, one of its pages.
#[derive(Clone, Copy, Debug)]
pub struct WorkUnit {
    /// The position of the source file in the batch.
    pub source_index: usize,
    /// The position of the unit in its source, from zero.
    pub unit_index: usize,
    /// The number of units of the source.
    pub total_units_in_source: usize,
}

/// Whether `units` lists the units of a batch: every unit of every file
/// once, file by file and page by page.
pub open spec fn lists_units(units: Seq<WorkUnit>, files: Seq<PageCount>) -> bool {
    &&& units.len() == unit_total(files)
    &&& forall|k: int|
        0 <= k < units.len() ==> {
            let unit = #[trigger] units[k];
            &&& 0 <= unit.source_index < files.len()
            &&& unit.total_units_in_source == units_of(files[unit.source_index as int])
            &&& unit.unit_index < unit.total_units_in_source
            &&& k == unit_total(files.subrange(0, unit.source_index as int)) + unit.unit_index
        }
}

/// Expands the files of a batch into its units, in order. There is no
/// list where the units are more than a `usize` counts.
pub fn enumerate_units(files: &Vec<PageCount>) -> (units: Option<Vec<WorkUnit>>)
    ensures
        units is Some <==> unit_total(files@) <= usize::MAX,
        units matches Some(list) ==> lists_units(list@, files@),
{
    if count_units(files).is_none() {
        return None;
    }
    let n = files.len();
    let mut list: Vec<WorkUnit> = Vec::new();
    let mut i: usize = 0;
    assert(files@.subrange(0, 0) =~= Seq::<PageCount>::empty());
    while i < n
        invariant
            i <= n,
            n == files@.len(),
            unit_total(files@) <= usize::MAX,
            lists_units(list@, files@.subrange(0, i as int)),
        decreases n - i,
    {
        let count = unit_count(files[i]);
        let ghost done = files@.subrange(0, i as int);
        let ghost next = files@.subrange(0, i + 1);
        proof {
            assert(next.drop_last() =~= done);
            lemma_unit_total_grows(files@, i + 1);
            assert forall|k: int| 0 <= k < list@.len() implies {
                let unit = #[trigger] list@[k];
                &&& 0 <= unit.source_index <= i
                &&& unit.total_units_in_source == units_of(files@[unit.source_index as int])
                &&& unit.unit_index < unit.total_units_in_source
                &&& k == unit_total(files@.subrange(0, unit.source_index as int))
                    + unit.unit_index
            } by {
                let unit = list@[k];
                assert(done.subrange(0, unit.source_index as int) =~= files@.subrange(
                    0,
                    unit.source_index as int,
                ));
            }
        }
        let mut page: usize = 0;
        while page < count
            invariant
                page <= count,
                i < n,
                n == files@.len(),
                count == units_of(files@[i as int]),
                done == files@.subrange(0, i as int),
                next == files@.subrange(0, i + 1),
                unit_total(next) == unit_total(done) + count,
                unit_total(next) <= usize::MAX,
                list@.len() == unit_total(done) + page,
                forall|k: int|
                    0 <= k < list@.len() ==> {
                        let unit = #[trigger] list@[k];
                        &&& 0 <= unit.source_index <= i
                        &&& unit.total_units_in_source == units_of(
                            files@[unit.source_index as int],
                        )
                        &&& unit.unit_index < unit.total_units_in_source
                        &&& k == unit_total(files@.subrange(0, unit.source_index as int))
                            + unit.unit_index
                    },
            decreases count - page,
        {
            list.push(WorkUnit { source_index: i, unit_index: page, total_units_in_source: count });
            page = page + 1;
        }
        proof {
            assert forall|k: int| 0 <= k < list@.len() implies {
                let unit = #[trigger] list@[k];
                &&& 0 <= unit.source_index < next.len()
                &&& unit.total_units_in_source == units_of(next[unit.source_index as int])
                &&& unit.unit_index < unit.total_units_in_source
                &&& k == unit_total(next.subrange(0, unit.source_index as int)) + unit.unit_index
            } by {
                let unit = list@[k];
                assert(next.subrange(0, unit.source_index as int) =~= files@.subrange(
                    0,
                    unit.source_index as int,
                ));
            }
        }
        i = i + 1;
    }
    assert(files@.subrange(0, n as int) =~= files@);
    Some(list)
}

} // verus!
