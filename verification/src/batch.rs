//! The two ways in which images are named to the exporter: a list file of
//! image names, and a few image paths given directly.
//!
//! A caller walks the entries, hands each image that is to be extracted to
//! the extractor, and reports what became of it as an [`Attempt`]. The
//! functions here decide which entries are attempted and what the batch
//! returns.

use vstd::prelude::*;
use crate::data::{Attempt, Error, ImagePlan, ImagePlanView};
use crate::text::{blank, is_blank, option_text, strings_view};

verus! {

/// The directory, below the working directory, against which the names of a
/// list file are resolved.
pub const DATA_DIRECTORY: &'static str = "data";

/// The parent directory that the platform splits off a path; `None` where
/// it finds none. Nothing is said of how a path is split, only that one
/// path is always split in one way.
pub uninterp spec fn path_parent_of(path: Seq<char>) -> Option<Seq<char>>;

/// The file name that the platform splits off a path; `None` where it finds
/// none. Nothing is said of how a path is split, only that one path is
/// always split in one way.
pub uninterp spec fn path_file_name_of(path: Seq<char>) -> Option<Seq<char>>;

/// Calls `std::path::Path::parent` on the path and hands the parent back as
/// a string. The split looks at the characters of the path alone, so the
/// contract gives its answer the name [`path_parent_of`].
#[verifier::external_body]
pub(crate) fn path_parent(path: &str) -> (parent: Option<String>)
    ensures
        match parent {
            Some(directory) => path_parent_of(path@) == Some(directory@),
            None => path_parent_of(path@) is None,
        },
{
    match std::path::Path::new(path).parent() {
        Some(parent) => Some(parent.to_string_lossy().into_owned()),
        None => None,
    }
}

/// Calls `std::path::Path::file_name` on the path and hands the name back
/// as a string. The split looks at the characters of the path alone, so the
/// contract gives its answer the name [`path_file_name_of`].
#[verifier::external_body]
pub(crate) fn path_file_name(path: &str) -> (file_name: Option<String>)
    ensures
        match file_name {
            Some(name) => path_file_name_of(path@) == Some(name@),
            None => path_file_name_of(path@) is None,
        },
{
    match std::path::Path::new(path).file_name() {
        Some(file_name) => Some(file_name.to_string_lossy().into_owned()),
        None => None,
    }
}

/// What is done with a path, given the parent directory and the file name
/// that it splits into. The empty path is passed over, and so is a path
/// that names no directory (it has no parent, or an empty one, as a bare
/// file name has) or no file; any other is extracted from its parent
/// directory.
pub open spec fn planned(
    path: Seq<char>,
    parent: Option<Seq<char>>,
    file_name: Option<Seq<char>>,
) -> ImagePlanView {
    if path.len() == 0 {
        ImagePlanView::SkipEmpty
    } else {
        match (parent, file_name) {
            (Some(directory), Some(name)) => if directory.len() > 0 {
                ImagePlanView::Extract { directory: directory, file_name: name }
            } else {
                ImagePlanView::SkipMalformed
            },
            _ => ImagePlanView::SkipMalformed,
        }
    }
}

/// The names of the images whose extraction succeeded, in the order of the
/// attempts.
pub open spec fn succeeded(attempts: Seq<Attempt>) -> Seq<Seq<char>> {
    attempts.filter(|a: Attempt| a.outcome is Ok).map_values(|a: Attempt| a.file_name@)
}

/// The view of what a batch returned.
pub open spec fn batch_view(result: Result<Vec<String>, Error>) -> Result<Seq<Seq<char>>, Error> {
    match result {
        Ok(names) => Ok(strings_view(names@)),
        Err(error) => Err(error),
    }
}

/// The attempts of a list file that could be read; `None` for one that
/// could not.
pub open spec fn listing_view(listing: Option<Vec<Attempt>>) -> Option<Seq<Attempt>> {
    match listing {
        Some(attempts) => Some(attempts@),
        None => None,
    }
}

/// What handling a list file returns, from the path it was named by and
/// what was found on reading it.
pub open spec fn list_handled(arg_text_file: Seq<char>, listing: Option<Seq<Attempt>>) -> Result<
    Seq<Seq<char>>,
    Error,
> {
    if blank(arg_text_file) {
        Err(Error::EmptyArgument)
    } else {
        match listing {
            None => Err(Error::IOError),
            Some(attempts) => Ok(succeeded(attempts)),
        }
    }
}

/// Where no attempt succeeded, no name is returned.
pub proof fn lemma_failures_leave_no_names(attempts: Seq<Attempt>)
    requires
        forall|i: int| 0 <= i < attempts.len() ==> (#[trigger] attempts[i]).outcome is Err,
    ensures
        succeeded(attempts) == Seq::<Seq<char>>::empty(),
{
    let ok = |a: Attempt| a.outcome is Ok;
    attempts.lemma_all_neg_filter_empty(ok);
}

/// Where every attempt succeeded, the names of all of them are returned, in
/// their order.
pub proof fn lemma_successes_keep_their_names(attempts: Seq<Attempt>)
    requires
        forall|i: int| 0 <= i < attempts.len() ==> (#[trigger] attempts[i]).outcome is Ok,
    ensures
        succeeded(attempts) == attempts.map_values(|a: Attempt| a.file_name@),
{
    let ok = |a: Attempt| a.outcome is Ok;
    assert(attempts.filter(ok) == attempts) by {
        lemma_filter_keeps_all(attempts);
    }
}

/// A batch returns what its parts return, one after the other: no attempt
/// bears on what becomes of another.
pub proof fn lemma_batches_join(first: Seq<Attempt>, second: Seq<Attempt>)
    ensures
        succeeded(first + second) == succeeded(first) + succeeded(second),
{
    Seq::filter_distributes_over_add(first, second, |a: Attempt| a.outcome is Ok);
}

/// Filtering by success drops nothing where every attempt succeeded.
proof fn lemma_filter_keeps_all(attempts: Seq<Attempt>)
    requires
        forall|i: int| 0 <= i < attempts.len() ==> (#[trigger] attempts[i]).outcome is Ok,
    ensures
        attempts.filter(|a: Attempt| a.outcome is Ok) == attempts,
    decreases attempts.len(),
{
    let ok = |a: Attempt| a.outcome is Ok;
    if attempts.len() == 0 {
        assert(attempts.filter(ok) == attempts) by {
            reveal(Seq::filter);
        }
    } else {
        lemma_filter_keeps_all(attempts.drop_last());
        attempts.drop_last().lemma_filter_push(attempts.last(), ok);
        assert(attempts.drop_last().push(attempts.last()) == attempts);
    }
}

/// A list file fails in two ways only, and in this order: for a path that
/// is empty or blank, for a file that could not be opened.
pub proof fn lemma_list_fails_in_order(arg_text_file: Seq<char>, listing: Option<Seq<Attempt>>)
    ensures
        list_handled(arg_text_file, listing) == Err::<Seq<Seq<char>>, Error>(
            Error::EmptyArgument,
        ) <==> blank(arg_text_file),
        list_handled(arg_text_file, listing) == Err::<Seq<Seq<char>>, Error>(Error::IOError)
            <==> !blank(arg_text_file) && listing is None,
{
}

/// A list file fails only for its path or because it cannot be opened:
/// once its lines were read, it returns a list, whatever became of the
/// images. Where none of them was extracted, the list is empty.
pub proof fn lemma_lines_never_fail_the_list(arg_text_file: Seq<char>, attempts: Seq<Attempt>)
    requires
        !blank(arg_text_file),
    ensures
        list_handled(arg_text_file, Some(attempts)) is Ok,
        (forall|i: int| 0 <= i < attempts.len() ==> (#[trigger] attempts[i]).outcome is Err)
            ==> list_handled(arg_text_file, Some(attempts)) == Ok::<Seq<Seq<char>>, Error>(
            Seq::empty(),
        ),
{
    if forall|i: int| 0 <= i < attempts.len() ==> (#[trigger] attempts[i]).outcome is Err {
        lemma_failures_leave_no_names(attempts);
    }
}

/// Decides what is done with a path from the parts it was split into: the
/// empty path is passed over, and so is a path without a parent directory,
/// with an empty one, or without a file name; any other is extracted from
/// its parent directory.
pub fn plan_from_parts(path: &str, parent: Option<String>, file_name: Option<String>) -> (plan:
    ImagePlan)
    ensures
        plan@ == planned(path@, option_text(parent), option_text(file_name)),
{
    if path.is_empty() {
        return ImagePlan::SkipEmpty;
    }
    match (parent, file_name) {
        (Some(directory), Some(name)) => {
            if directory.as_str().is_empty() {
                ImagePlan::SkipMalformed
            } else {
                ImagePlan::Extract { directory, file_name: name }
            }
        },
        _ => ImagePlan::SkipMalformed,
    }
}

/// Decides what is done with one entry of a list of image paths: what
/// [`planned`] gives for the path and the parts that the platform splits
/// it into.
pub fn plan_image_file(path: &str) -> (plan: ImagePlan)
    ensures
        plan@ == planned(path@, path_parent_of(path@), path_file_name_of(path@)),
{
    if path.is_empty() {
        return ImagePlan::SkipEmpty;
    }
    let image_directory_path = path_parent(path);
    let full_image_name = path_file_name(path);
    plan_from_parts(path, image_directory_path, full_image_name)
}

/// However a path is split, only the empty path is passed over as empty,
/// and an image is never extracted from a directory without a name.
pub proof fn lemma_plan_names_a_directory(
    path: Seq<char>,
    parent: Option<Seq<char>>,
    file_name: Option<Seq<char>>,
)
    ensures
        planned(path, parent, file_name) is SkipEmpty <==> path.len() == 0,
        planned(path, parent, file_name) matches ImagePlanView::Extract { directory, .. }
            ==> directory.len() > 0 && parent == Some(directory),
        planned(path, parent, file_name) matches ImagePlanView::Extract { file_name: name, .. }
            ==> file_name == Some(name),
{
}

/// Tells whether a list file is to be read at all: a path that is empty or
/// blank is refused with `EmptyArgument`. A caller asks this before it
/// opens anything.
pub fn check_list_argument(arg_text_file: &str) -> (result: Result<(), Error>)
    ensures
        result == if blank(arg_text_file@) {
            Err::<(), Error>(Error::EmptyArgument)
        } else {
            Ok::<(), Error>(())
        },
{
    if is_blank(arg_text_file) {
        Err(Error::EmptyArgument)
    } else {
        Ok(())
    }
}

/// Collects the names of the images whose extraction succeeded.
fn successful_names(attempts: &Vec<Attempt>) -> (names: Vec<String>)
    ensures
        strings_view(names@) == succeeded(attempts@),
{
    let ghost ok = |a: Attempt| a.outcome is Ok;
    let ghost name = |a: Attempt| a.file_name@;
    let mut names: Vec<String> = Vec::new();
    let mut i: usize = 0;
    assert(attempts@.take(0).filter(ok) == Seq::<Attempt>::empty()) by {
        reveal(Seq::filter);
    }
    while i < attempts.len()
        invariant
            i <= attempts.len(),
            ok == |a: Attempt| a.outcome is Ok,
            name == |a: Attempt| a.file_name@,
            strings_view(names@) == attempts@.take(i as int).filter(ok).map_values(name),
        decreases attempts.len() - i,
    {
        let ghost before = attempts@.take(i as int);
        proof {
            before.lemma_filter_push(attempts@[i as int], ok);
            assert(attempts@.take(i + 1) == before.push(attempts@[i as int]));
        }
        if attempts[i].outcome.is_ok() {
            names.push(attempts[i].file_name.clone());
            assert(before.filter(ok).push(attempts@[i as int]).map_values(name)
                == before.filter(ok).map_values(name).push(attempts@[i as int].file_name@));
        }
        i += 1;
    }
    assert(attempts@.take(attempts@.len() as int) == attempts@);
    names
}

/// Returns what the direct image paths come to: the names of the images
/// that were extracted with success, in the order in which they were
/// attempted. A failed attempt leaves its image out and never fails the
/// batch.
pub fn handle_image_files(attempts: Vec<Attempt>) -> (result: Result<Vec<String>, Error>)
    ensures
        batch_view(result) == Ok::<Seq<Seq<char>>, Error>(succeeded(attempts@)),
{
    Ok(successful_names(&attempts))
}

/// Returns what a list file comes to. `listing` holds one attempt for each
/// line of the file that was read, in their order, or `None` where the file
/// could not be opened.
///
/// A path that is empty or blank fails with `EmptyArgument`, whatever
/// `listing` holds; a file that could not be opened fails with `IOError`.
/// Otherwise the names of the images that were extracted with success are
/// returned in the order of their lines, and a failed attempt leaves its
/// image out.
pub fn handle_arg_text_file(arg_text_file: &str, listing: Option<Vec<Attempt>>) -> (result: Result<
    Vec<String>,
    Error,
>)
    ensures
        batch_view(result) == list_handled(arg_text_file@, listing_view(listing)),
{
    match check_list_argument(arg_text_file) {
        Ok(()) => {},
        Err(error) => {
            return Err(error);
        },
    }
    match listing {
        Some(attempts) => Ok(successful_names(&attempts)),
        None => Err(Error::IOError),
    }
}

} // verus!
