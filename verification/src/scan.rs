//! Scanning for media files: the list of accepted extensions and the test
//! of one file against it; and the ids given to what a scan finds.

use crate::seqs::{lemma_flatten_take_ends, lemma_flatten_take_step, push_arg};
use crate::text::{
    ascii_lowercase, decimal_digits, push_decimal, str_eq, to_ascii_lowercase, trim_start_char,
    trim_start_char_str,
};
use vstd::prelude::*;
use vstd::string::StringExecFns;

verus! {

/// An extension as it is compared: without leading dots, in lower case.
pub open spec fn normal_extension(extension: Seq<char>) -> Seq<char> {
    ascii_lowercase(trim_start_char(extension, '.'))
}

/// Each extension as it is compared, where that is not empty.
pub open spec fn normal_extension_groups(extensions: Seq<Seq<char>>) -> Seq<Seq<Seq<char>>> {
    Seq::new(
        extensions.len(),
        |i: int|
            if normal_extension(extensions[i]).len() > 0 {
                seq![normal_extension(extensions[i])]
            } else {
                Seq::empty()
            },
    )
}

/// The extensions as they are compared, without those that are empty.
pub open spec fn normal_extensions(extensions: Seq<Seq<char>>) -> Seq<Seq<char>> {
    normal_extension_groups(extensions).flatten()
}

/// The extensions as they are compared: without leading dots, in lower
/// case, and without those that are empty then.
pub fn normalize_extension_list(extensions: &[String]) -> (out: Vec<String>)
    ensures
        out.deep_view() == normal_extensions(extensions.deep_view()),
{
    let ghost groups = normal_extension_groups(extensions.deep_view());
    let mut out: Vec<String> = Vec::new();
    let mut i: usize = 0;
    proof {
        lemma_flatten_take_ends(groups);
        assert(out.deep_view() == Seq::<Seq<char>>::empty());
    }
    while i < extensions.len()
        invariant
            i <= extensions.len(),
            groups == normal_extension_groups(extensions.deep_view()),
            out.deep_view() == groups.take(i as int).flatten(),
        decreases extensions.len() - i,
    {
        proof {
            lemma_flatten_take_step(groups, i as int);
        }
        let ghost so_far = out.deep_view();
        let bare = trim_start_char_str(extensions[i].as_str(), '.');
        let lower = to_ascii_lowercase(bare.as_str());
        if lower.as_str().unicode_len() > 0 {
            push_arg(&mut out, lower);
            assert(out.deep_view() == so_far + groups[i as int]);
        } else {
            assert(so_far + groups[i as int] == so_far);
        }
        i += 1;
    }
    out
}

/// Whether `list` holds `text`.
pub open spec fn lists(list: Seq<Seq<char>>, text: Seq<char>) -> bool {
    exists|k: int| 0 <= k < list.len() && #[trigger] list[k] == text
}

/// Whether a file with the given extension is taken: every file is where
/// the list is empty or holds `all`; else the file needs an extension, and
/// the list must hold it in lower case.
pub open spec fn included(extension: Option<Seq<char>>, allowed: Seq<Seq<char>>) -> bool {
    allowed.len() == 0 || lists(allowed, "all"@) || (extension matches Some(e) && lists(
        allowed,
        ascii_lowercase(e),
    ))
}

/// Whether `list` holds `text`.
pub fn list_contains(list: &[String], text: &str) -> (r: bool)
    ensures
        r == lists(list.deep_view(), text@),
{
    let mut k: usize = 0;
    while k < list.len()
        invariant
            k <= list.len(),
            forall|j: int| 0 <= j < k ==> #[trigger] list.deep_view()[j] != text@,
        decreases list.len() - k,
    {
        if str_eq(list[k].as_str(), text) {
            assert(list.deep_view()[k as int] == text@);
            return true;
        }
        k += 1;
    }
    false
}

/// Whether a file with the given extension is taken by a scan.
pub fn should_include_file(extension: Option<&str>, allowed_extensions: &[String]) -> (r: bool)
    ensures
        r == included(
            match extension {
                Some(e) => Some(e@),
                None => None,
            },
            allowed_extensions.deep_view(),
        ),
{
    if allowed_extensions.len() == 0 || list_contains(allowed_extensions, "all") {
        return true;
    }
    match extension {
        Some(e) => {
            let lower = to_ascii_lowercase(e);
            list_contains(allowed_extensions, lower.as_str())
        },
        None => false,
    }
}

/// The id for an item: the prefix, the time in milliseconds and a running
/// number, with hyphens between them.
pub open spec fn id_text(prefix: Seq<char>, timestamp_millis: u128, counter: u64) -> Seq<char> {
    prefix + "-"@ + decimal_digits(timestamp_millis as nat) + "-"@ + decimal_digits(
        counter as nat,
    )
}

/// The id for an item found at `timestamp_millis` as the `counter`-th.
pub fn generate_id(prefix: &str, timestamp_millis: u128, counter: u64) -> (out: String)
    ensures
        out@ == id_text(prefix@, timestamp_millis, counter),
{
    let mut out = String::from_str(prefix);
    out.append("-");
    push_decimal(&mut out, timestamp_millis);
    out.append("-");
    push_decimal(&mut out, counter as u128);
    out
}

} // verus!
