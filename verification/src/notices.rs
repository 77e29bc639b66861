//! What the commands say on the terminal.

use vstd::prelude::*;

use crate::error::StarryError;
use crate::text::{
    decimal, decimal_text, is_digit, law_decimal_read_back, law_split_at_separator, lemma_decimal,
    lemma_split_single, number_in, split,
};

verus! {

/// Where a run stands: `[2/5] `.
pub open spec fn progress(index: usize, total: usize) -> Seq<char> {
    "["@ + decimal((index + 1) as nat) + "/"@ + decimal(total as nat) + "] "@
}

fn progress_text(index: usize, total: usize) -> (text: String)
    requires
        index < total,
    ensures
        text@ == progress(index, total),
{
    "[".to_owned().concat(decimal_text(index + 1).as_str()).concat("/").concat(
        decimal_text(total).as_str(),
    ).concat("] ")
}

pub fn generated_build_config(path: &str, board: &str) -> (text: String)
    ensures
        text@ == "generated missing Starry qemu build config "@ + path@ + " from board "@ + board@,
{
    "generated missing Starry qemu build config ".to_owned().concat(path).concat(
        " from board ",
    ).concat(board)
}

pub fn rootfs_ready(path: &str) -> (text: String)
    ensures
        text@ == "rootfs ready at "@ + path@,
{
    "rootfs ready at ".to_owned().concat(path)
}

pub fn generated_defconfig(path: &str, board: &str) -> (text: String)
    ensures
        text@ == "Generated "@ + path@ + " for board "@ + board@,
{
    "Generated ".to_owned().concat(path).concat(" for board ").concat(board)
}

pub fn qemu_tests_started(group: &str, package: &str, arch: &str, target: &str) -> (text: String)
    ensures
        text@ == "running starry "@ + group@ + " qemu tests for package "@ + package@
            + " on arch: "@ + arch@ + " (target: "@ + target@ + ")"@,
{
    "running starry ".to_owned().concat(group).concat(" qemu tests for package ").concat(
        package,
    ).concat(" on arch: ").concat(arch).concat(" (target: ").concat(target).concat(")")
}

pub fn qemu_case_started(index: usize, total: usize, name: &str) -> (text: String)
    requires
        index < total,
    ensures
        text@ == progress(index, total) + "starry qemu "@ + name@,
{
    progress_text(index, total).concat("starry qemu ").concat(name)
}

pub fn board_group_started(index: usize, total: usize, name: &str) -> (text: String)
    requires
        index < total,
    ensures
        text@ == progress(index, total) + "starry board "@ + name@,
{
    progress_text(index, total).concat("starry board ").concat(name)
}

pub fn passed(name: &str) -> (text: String)
    ensures
        text@ == "ok: "@ + name@,
{
    "ok: ".to_owned().concat(name)
}

pub fn failed(name: &str, error: &StarryError) -> (text: String)
    ensures
        text@ == "failed: "@ + name@ + ": "@ + error.text(),
{
    "failed: ".to_owned().concat(name).concat(": ").concat(error.message().as_str())
}

pub fn missing_board_test_config(name: &str, path: &str) -> (text: String)
    ensures
        text@ == "failed: "@ + name@ + ": missing board test config `"@ + path@ + "`"@,
{
    "failed: ".to_owned().concat(name).concat(": missing board test config `").concat(path).concat(
        "`",
    )
}

/// An error with what was going on in front of it.
pub fn with_context(context: &str, error: &StarryError) -> (wrapped: StarryError)
    ensures
        wrapped.text() == context@ + ": "@ + error.text(),
{
    StarryError::Outside {
        message: context.to_owned().concat(": ").concat(error.message().as_str()),
    }
}

/// The error of a QEMU case that failed.
pub fn qemu_case_error(name: &str, error: &StarryError) -> (wrapped: StarryError)
    ensures
        wrapped.text() == "starry qemu test failed for case `"@ + name@ + "`"@ + ": "@
            + error.text(),
{
    let context = "starry qemu test failed for case `".to_owned().concat(name).concat("`");
    with_context(context.as_str(), error)
}

/// The error of a board that failed while it ran a group.
pub fn board_run_error(
    name: &str,
    build_config: &str,
    board_test_config: &str,
    error: &StarryError,
) -> (wrapped: StarryError)
    ensures
        wrapped.text() == "starry board test failed for group `"@ + name@ + "` (build_config="@
            + build_config@ + ", board_test_config="@ + board_test_config@ + ")"@ + ": "@
            + error.text(),
{
    let context = "starry board test failed for group `".to_owned().concat(name).concat(
        "` (build_config=",
    ).concat(build_config).concat(", board_test_config=").concat(board_test_config).concat(")");
    with_context(context.as_str(), error)
}

/// The progress of a run counts from one: the number in front of the slash is
/// that of the case, and the number behind it that of all cases.
pub proof fn law_progress_counts_from_one(index: usize, total: usize)
    requires
        index < total,
    ensures
        progress(index, total).len() > 0,
        progress(index, total)[0] == '[',
        split(progress(index, total).skip(1), '/').len() == 2,
        number_in(split(progress(index, total).skip(1), '/')[0]) == Some((index + 1) as usize),
        split(progress(index, total).skip(1), '/')[1] == decimal(total as nat) + "] "@,
{
    reveal_strlit("[");
    reveal_strlit("/");
    reveal_strlit("] ");
    let first = decimal((index + 1) as nat);
    let rest = decimal(total as nat) + "] "@;
    lemma_decimal((index + 1) as nat);
    lemma_decimal(total as nat);
    assert(progress(index, total).skip(1) =~= first.push('/') + rest);
    assert forall|i: int| 0 <= i < first.len() implies first[i] != '/' by {
        assert(is_digit(first[i]));
    }
    assert forall|i: int| 0 <= i < rest.len() implies rest[i] != '/' by {
        if i < decimal(total as nat).len() {
            assert(is_digit(decimal(total as nat)[i]));
        }
    }
    law_split_at_separator(first, '/', rest);
    lemma_split_single(first, '/');
    lemma_split_single(rest, '/');
    law_decimal_read_back((index + 1) as usize);
}

} // verus!
