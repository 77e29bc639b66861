//! QEMU arguments for the root file system and the processor count.

use vstd::prelude::*;

use crate::error::StarryError;
use crate::request::{Op, ResolvedStarryRequest};
use crate::text::{
    chars_of, decimal, decimal_text, glued, is_digit, is_free_of, law_decimal_read_back,
    law_glued_split, law_only_digits_spell_numbers, law_split_at_separator, lemma_decimal,
    lemma_split_single, number_in, parse_number, parts_of, same_text, split, split_text, texts,
};

verus! {

/// What is read and written of a QEMU configuration.
#[derive(Debug, Clone, PartialEq, Eq)]
pub struct QemuConfig {
    pub args: Vec<String>,
}

/// Checks that a target is the one of an architecture, before the default
/// managed rootfs of the architecture is made available; `expected` is the
/// target that is looked up for the architecture.
pub fn ensure_rootfs_in_target_dir(
    expected: Result<String, StarryError>,
    arch: &String,
    target: &String,
) -> (result: Result<(), StarryError>)
    ensures
        match expected {
            Err(error) => result == Err::<(), StarryError>(error),
            Ok(expected) => result == (if target@ == expected@ {
                Ok::<(), StarryError>(())
            } else {
                Err(StarryError::TargetMismatch { arch: *arch, expected, target: *target })
            }),
        },
{
    let expected = match expected {
        Ok(expected) => expected,
        Err(error) => return Err(error),
    };
    if !same_text(target.as_str(), expected.as_str()) {
        return Err(
            StarryError::TargetMismatch { arch: arch.clone(), expected, target: target.clone() },
        );
    }
    Ok(())
}

/// The work that gives a QEMU config the default rootfs of a request.
pub open spec fn default_qemu_ops(request: ResolvedStarryRequest) -> Seq<Op> {
    seq![
        Op::EnsureRootfs { arch: request.arch, target: Some(request.target) },
        Op::PatchRootfs,
    ]
}

/// Applies the default Starry rootfs-backed QEMU arguments for a request.
pub fn apply_default_qemu_args(request: &ResolvedStarryRequest) -> (ops: Vec<Op>)
    ensures
        ops@ == default_qemu_ops(*request),
{
    vec![
        Op::EnsureRootfs { arch: request.arch.clone(), target: Some(request.target.clone()) },
        Op::PatchRootfs,
    ]
}

/// The argument that sets the processor count.
pub open spec fn smp_flag() -> Seq<char> {
    "-smp"@
}

/// Where an argument stands for the first time.
pub open spec fn position(args: Seq<Seq<char>>, arg: Seq<char>) -> Option<int>
    decreases args.len(),
{
    if args.len() == 0 {
        None
    } else {
        match position(args.drop_last(), arg) {
            Some(at) => Some(at),
            None => if args.last() == arg {
                Some(args.len() - 1)
            } else {
                None
            },
        }
    }
}

/// The arguments with the processor count set: the value behind the first
/// `-smp` is replaced, and where there is no such value both are appended.
pub open spec fn smp_applied(args: Seq<Seq<char>>, cpus: usize) -> Seq<Seq<char>> {
    let count = decimal(cpus as nat);
    match position(args, smp_flag()) {
        Some(at) if at + 1 < args.len() => args.update(at + 1, count),
        _ => args.push(smp_flag()).push(count),
    }
}

/// The arguments with a processor count set, if one is given.
pub open spec fn smp_set(args: Seq<Seq<char>>, smp: Option<usize>) -> Seq<Seq<char>> {
    match smp {
        Some(cpus) => smp_applied(args, cpus),
        None => args,
    }
}

/// The count in a `cpus=<count>` part.
pub open spec fn cpus_in(part: Seq<char>) -> Option<usize> {
    let key = "cpus="@;
    if part.len() >= key.len() && part.take(key.len() as int) == key {
        number_in(part.skip(key.len() as int))
    } else {
        None
    }
}

/// The count in the first `cpus=<count>` part that has one.
pub open spec fn first_cpus(parts: Seq<Seq<char>>) -> Option<usize>
    decreases parts.len(),
{
    if parts.len() == 0 {
        None
    } else {
        match first_cpus(parts.drop_last()) {
            Some(count) => Some(count),
            None => cpus_in(parts.last()),
        }
    }
}

/// The processor count in the value of `-smp`: a plain number in front, or
/// else a `cpus=` part.
pub open spec fn smp_value(value: Seq<char>) -> Option<usize> {
    let parts = split(value, ',');
    match number_in(parts[0]) {
        Some(count) => Some(count),
        None => first_cpus(parts),
    }
}

/// The processor count that arguments set.
pub open spec fn smp_in(args: Seq<Seq<char>>) -> Option<usize> {
    match position(args, smp_flag()) {
        Some(at) if at + 1 < args.len() => smp_value(args[at + 1]),
        _ => None,
    }
}

/// Whether the first `-smp` is the last argument, so that it has no value.
pub open spec fn dangling_smp(args: Seq<Seq<char>>) -> bool {
    position(args, smp_flag()) == Some(args.len() - 1)
}

/// Finds an argument.
fn find_arg(args: &Vec<String>, arg: &str) -> (at: Option<usize>)
    ensures
        match at {
            Some(at) => at < args@.len() && position(texts(args@), arg@) == Some(at as int),
            None => position(texts(args@), arg@) is None,
        },
{
    let ghost all = texts(args@);
    let len: usize = args.len();
    assert(all.take(0) =~= Seq::empty());
    for at in 0..len
        invariant
            len == args@.len(),
            all == texts(args@),
            position(all.take(at as int), arg@) is None,
    {
        assert(all.take(at + 1).drop_last() =~= all.take(at as int));
        if same_text(args[at].as_str(), arg) {
            proof {
                lemma_position_prefix(all.take(at + 1), all.skip(at + 1), arg@);
                assert(all.take(at + 1) + all.skip(at + 1) =~= all);
            }
            return Some(at);
        }
    }
    assert(all.take(len as int) =~= all);
    None
}

/// What is found in front is found first.
proof fn lemma_position_prefix(front: Seq<Seq<char>>, rest: Seq<Seq<char>>, arg: Seq<char>)
    requires
        position(front, arg) is Some,
    ensures
        position(front + rest, arg) == position(front, arg),
    decreases rest.len(),
{
    if rest.len() == 0 {
        assert(front + rest =~= front);
    } else {
        lemma_position_prefix(front, rest.drop_last(), arg);
        assert((front + rest).drop_last() =~= front + rest.drop_last());
    }
}

/// Applies or replaces the `-smp` argument in a QEMU config.
pub fn apply_smp_qemu_arg(qemu: &mut QemuConfig, smp: Option<usize>)
    ensures
        texts(final(qemu).args@) == smp_set(texts(old(qemu).args@), smp),
{
    let cpu_num: usize = match smp {
        Some(cpu_num) => cpu_num,
        None => {
            return;
        },
    };
    let ghost before = texts(qemu.args@);
    match find_arg(&qemu.args, "-smp") {
        Some(index) => {
            if index < qemu.args.len() - 1 {
                let value = decimal_text(cpu_num);
                let ghost count = value@;
                qemu.args.set(index + 1, value);
                assert(texts(qemu.args@) =~= before.update(index + 1, count));
                return;
            }
        },
        None => {},
    }
    qemu.args.push("-smp".to_owned());
    qemu.args.push(decimal_text(cpu_num));
    assert(texts(qemu.args@) =~= before.push(smp_flag()).push(decimal(cpu_num as nat)));
}

/// Reads the effective CPU count from a QEMU `-smp` argument, if present.
pub fn smp_from_qemu_arg(qemu: &QemuConfig) -> (smp: Option<usize>)
    ensures
        smp == smp_in(texts(qemu.args@)),
{
    match find_arg(&qemu.args, "-smp") {
        Some(index) => if index < qemu.args.len() - 1 {
            parse_smp_qemu_value(qemu.args[index + 1].as_str())
        } else {
            None
        },
        None => None,
    }
}

/// Reads the count of a `cpus=<count>` part.
fn parse_cpus(part: &Vec<char>) -> (count: Option<usize>)
    ensures
        count == cpus_in(part@),
{
    proof {
        reveal_strlit("cpus=");
    }
    let ghost key = "cpus="@;
    let len: usize = part.len();
    if len >= 5 && part[0] == 'c' && part[1] == 'p' && part[2] == 'u' && part[3] == 's' && part[4]
        == '=' {
        assert(part@.take(5) =~= key);
        let count: &[char] = &part.as_slice()[5..len];
        assert(count@ =~= part@.skip(5));
        parse_number(count)
    } else {
        proof {
            if len >= 5 && part@.take(5) == key {
                assert(part@[0] == key[0] && part@[1] == key[1] && part@[2] == key[2] && part@[3]
                    == key[3] && part@[4] == key[4]) by {
                    assert(part@.take(5)[0] == part@[0] && part@.take(5)[1] == part@[1]
                        && part@.take(5)[2] == part@[2] && part@.take(5)[3] == part@[3]
                        && part@.take(5)[4] == part@[4]);
                }
            }
        }
        None
    }
}

/// Parses the CPU count encoded in a QEMU `-smp` value.
pub fn parse_smp_qemu_value(value: &str) -> (smp: Option<usize>)
    ensures
        smp == smp_value(value@),
{
    let chars = chars_of(value);
    let parts = split_text(chars.as_slice(), ',');
    let ghost all = parts_of(parts@);
    let first = parse_number(parts[0].as_slice());
    if first.is_some() {
        return first;
    }
    let len: usize = parts.len();
    assert(all.take(0) =~= Seq::empty());
    for at in 0..len
        invariant
            len == parts@.len(),
            all == parts_of(parts@),
            all == split(value@, ','),
            number_in(all[0]) is None,
            first_cpus(all.take(at as int)) is None,
    {
        assert(all.take(at + 1).drop_last() =~= all.take(at as int));
        let count = parse_cpus(&parts[at]);
        if count.is_some() {
            proof {
                lemma_first_cpus_prefix(all.take(at + 1), all.skip(at + 1));
                assert(all.take(at + 1) + all.skip(at + 1) =~= all);
            }
            return count;
        }
    }
    assert(all.take(len as int) =~= all);
    None
}

/// A count found in front is the first.
proof fn lemma_first_cpus_prefix(front: Seq<Seq<char>>, rest: Seq<Seq<char>>)
    requires
        first_cpus(front) is Some,
    ensures
        first_cpus(front + rest) == first_cpus(front),
    decreases rest.len(),
{
    if rest.len() == 0 {
        assert(front + rest =~= front);
    } else {
        lemma_first_cpus_prefix(front, rest.drop_last());
        assert((front + rest).drop_last() =~= front + rest.drop_last());
    }
}

/// The first place of an argument is the only index at which it stands and
/// before which it does not.
proof fn lemma_position_first(args: Seq<Seq<char>>, arg: Seq<char>, at: int)
    requires
        0 <= at < args.len(),
        args[at] == arg,
        forall|i: int| 0 <= i < at ==> args[i] != arg,
    ensures
        position(args, arg) == Some(at),
    decreases args.len(),
{
    if at == args.len() - 1 {
        lemma_position_absent(args.drop_last(), arg);
    } else {
        lemma_position_first(args.drop_last(), arg, at);
    }
}

/// An argument that stands nowhere is not found.
proof fn lemma_position_absent(args: Seq<Seq<char>>, arg: Seq<char>)
    requires
        forall|i: int| 0 <= i < args.len() ==> args[i] != arg,
    ensures
        position(args, arg) is None,
    decreases args.len(),
{
    if args.len() > 0 {
        lemma_position_absent(args.drop_last(), arg);
    }
}

/// What is found stands where it is found, and not before.
proof fn lemma_position_found(args: Seq<Seq<char>>, arg: Seq<char>)
    ensures
        match position(args, arg) {
            Some(at) => 0 <= at < args.len() && args[at] == arg && forall|i: int|
                0 <= i < at ==> args[i] != arg,
            None => forall|i: int| 0 <= i < args.len() ==> args[i] != arg,
        },
    decreases args.len(),
{
    if args.len() > 0 {
        lemma_position_found(args.drop_last(), arg);
        let front = args.drop_last();
        assert forall|i: int| 0 <= i < front.len() implies front[i] == args[i] by {}
        match position(front, arg) {
            Some(_) => {},
            None => {
                assert forall|i: int| 0 <= i < args.len() - 1 implies args[i] != arg by {
                    assert(front[i] == args[i]);
                }
            },
        }
    }
}

/// A plain count is what the value of `-smp` says.
pub proof fn law_plain_count_read_back(cpus: usize)
    ensures
        smp_value(decimal(cpus as nat)) == Some(cpus),
{
    let count = decimal(cpus as nat);
    lemma_decimal(cpus as nat);
    assert forall|i: int| 0 <= i < count.len() implies count[i] != ',' by {
        assert(is_digit(count[i]));
    }
    lemma_split_single(count, ',');
    law_decimal_read_back(cpus);
}

/// The count that was applied is the count that is read, unless the
/// arguments ended in an `-smp` without a value.
pub proof fn law_smp_read_back(args: Seq<Seq<char>>, cpus: usize)
    requires
        !dangling_smp(args),
    ensures
        smp_in(smp_applied(args, cpus)) == Some(cpus),
{
    let count = decimal(cpus as nat);
    let after = smp_applied(args, cpus);
    law_plain_count_read_back(cpus);
    lemma_position_found(args, smp_flag());
    match position(args, smp_flag()) {
        Some(at) => {
            assert(after[at] == smp_flag());
            assert forall|i: int| 0 <= i < at implies after[i] != smp_flag() by {
                assert(after[i] == args[i]);
            }
            lemma_position_first(after, smp_flag(), at);
        },
        None => {
            let at = args.len() as int;
            assert(after[at] == smp_flag());
            assert forall|i: int| 0 <= i < at implies after[i] != smp_flag() by {
                assert(after[i] == args[i]);
            }
            lemma_position_first(after, smp_flag(), at);
        },
    }
}

/// Applying a second count replaces the first: what counts is the last, and
/// the number of arguments does not grow again.
pub proof fn law_smp_last_applied_wins(args: Seq<Seq<char>>, first: usize, second: usize)
    requires
        !dangling_smp(args),
    ensures
        smp_applied(smp_applied(args, first), second) == smp_applied(args, second),
{
    let once = smp_applied(args, first);
    lemma_position_found(args, smp_flag());
    match position(args, smp_flag()) {
        Some(at) => {
            assert forall|i: int| 0 <= i < at implies once[i] != smp_flag() by {
                assert(once[i] == args[i]);
            }
            lemma_position_first(once, smp_flag(), at);
            assert(smp_applied(once, second) =~= smp_applied(args, second));
        },
        None => {
            let at = args.len() as int;
            assert forall|i: int| 0 <= i < at implies once[i] != smp_flag() by {
                assert(once[i] == args[i]);
            }
            lemma_position_first(once, smp_flag(), at);
            assert(smp_applied(once, second) =~= smp_applied(args, second));
        },
    }
}

/// Applying a count keeps every argument except the value that it sets, and
/// keeps them in place.
pub proof fn law_smp_keeps_other_args(args: Seq<Seq<char>>, cpus: usize, at: int)
    requires
        0 <= at < args.len(),
        !(position(args, smp_flag()) matches Some(flag) && at == flag + 1),
    ensures
        smp_applied(args, cpus).len() >= args.len(),
        smp_applied(args, cpus)[at] == args[at],
{
    lemma_position_found(args, smp_flag());
}

/// The first `-smp` counts, and what stands behind it is its value.
pub proof fn law_first_smp_counts(
    before: Seq<Seq<char>>,
    value: Seq<char>,
    after: Seq<Seq<char>>,
    cpus: usize,
)
    requires
        forall|i: int| 0 <= i < before.len() ==> #[trigger] before[i] != "-smp"@,
    ensures
        smp_in(before.push("-smp"@).push(value) + after) == smp_value(value),
        smp_applied(before.push("-smp"@).push(value) + after, cpus) == before.push("-smp"@).push(
            decimal(cpus as nat),
        ) + after,
        smp_in(before) is None,
        smp_applied(before, cpus) == before.push("-smp"@).push(decimal(cpus as nat)),
        smp_in(before.push("-smp"@)) is None,
        smp_applied(before.push("-smp"@), cpus) == before.push("-smp"@).push("-smp"@).push(
            decimal(cpus as nat),
        ),
{
    let args = before.push("-smp"@).push(value) + after;
    let at = before.len() as int;
    assert(args[at] == "-smp"@);
    assert forall|i: int| 0 <= i < at implies args[i] != smp_flag() by {
        assert(args[i] == before[i]);
    }
    lemma_position_first(args, smp_flag(), at);
    assert(args[at + 1] == value);
    assert(smp_applied(args, cpus) =~= before.push("-smp"@).push(decimal(cpus as nat)) + after);
    lemma_position_absent(before, smp_flag());
    let dangling = before.push("-smp"@);
    assert forall|i: int| 0 <= i < at implies dangling[i] != smp_flag() by {
        assert(dangling[i] == before[i]);
    }
    lemma_position_first(dangling, smp_flag(), at);
}

/// A plain number in front of a comma counts, whatever follows.
pub proof fn law_plain_count_before_other_parts(cpus: usize, rest: Seq<char>)
    ensures
        smp_value(decimal(cpus as nat).push(',') + rest) == Some(cpus),
{
    let count = decimal(cpus as nat);
    lemma_decimal_free_of_comma(cpus);
    lemma_split_single(count, ',');
    law_split_at_separator(count, ',', rest);
    law_decimal_read_back(cpus);
    assert((seq![count] + split(rest, ','))[0] == count);
}

proof fn lemma_decimal_free_of_comma(cpus: usize)
    ensures
        is_free_of(decimal(cpus as nat), ','),
{
    let count = decimal(cpus as nat);
    lemma_decimal(cpus as nat);
    assert forall|i: int| 0 <= i < count.len() implies count[i] != ',' by {
        assert(is_digit(count[i]));
    }
}

/// A count in key-value form is read back whole, whatever follows it.
pub proof fn law_cpus_read_back(cpus: usize, rest: Seq<char>)
    ensures
        smp_value("cpus="@ + decimal(cpus as nat)) == Some(cpus),
        smp_value(("cpus="@ + decimal(cpus as nat)).push(',') + rest) == Some(cpus),
{
    let part = "cpus="@ + decimal(cpus as nat);
    lemma_cpus_part(cpus);
    lemma_split_single(part, ',');
    lemma_first_cpus_single(part);
    law_split_at_separator(part, ',', rest);
    let parts = seq![part] + split(rest, ',');
    assert(parts[0] == part);
    lemma_first_cpus_prefix(seq![part], split(rest, ','));
}

proof fn lemma_first_cpus_single(part: Seq<char>)
    ensures
        first_cpus(seq![part]) == cpus_in(part),
{
    assert(seq![part].drop_last() =~= Seq::<Seq<char>>::empty());
    assert(first_cpus(Seq::<Seq<char>>::empty()) is None);
    assert(seq![part].last() == part);
}

/// `cpus=` and a count is one part, which is no plain number and names the
/// count.
proof fn lemma_cpus_part(cpus: usize)
    ensures
        is_free_of("cpus="@ + decimal(cpus as nat), ','),
        number_in("cpus="@ + decimal(cpus as nat)) is None,
        cpus_in("cpus="@ + decimal(cpus as nat)) == Some(cpus),
{
    let key = "cpus="@;
    let count = decimal(cpus as nat);
    let part = key + count;
    reveal_strlit("cpus=");
    lemma_decimal_free_of_comma(cpus);
    assert forall|i: int| 0 <= i < part.len() implies part[i] != ',' by {
        if i >= key.len() {
            assert(part[i] == count[i - key.len()]);
        }
    }
    law_only_digits_spell_numbers(part, 0);
    assert(part.take(key.len() as int) =~= key);
    assert(part.skip(key.len() as int) =~= count);
    law_decimal_read_back(cpus);
}

/// A count in key-value form is found behind other parts, if none of them
/// starts with the key and the first is no plain number.
pub proof fn law_cpus_found_among_parts(
    before: Seq<Seq<char>>,
    cpus: usize,
    after: Seq<Seq<char>>,
)
    requires
        before.len() > 0,
        number_in(before[0]) is None,
        forall|i: int|
            0 <= i < before.len() ==> is_free_of(#[trigger] before[i], ',') && !starts_with_key(
                before[i],
            ),
        forall|i: int| 0 <= i < after.len() ==> is_free_of(#[trigger] after[i], ','),
    ensures
        smp_value(glued(before.push("cpus="@ + decimal(cpus as nat)) + after, ',')) == Some(cpus),
{
    let part = "cpus="@ + decimal(cpus as nat);
    let parts = before.push(part) + after;
    lemma_cpus_part(cpus);
    assert forall|i: int| 0 <= i < parts.len() implies is_free_of(#[trigger] parts[i], ',') by {
        if i < before.len() {
            assert(parts[i] == before[i]);
        } else if i > before.len() {
            assert(parts[i] == after[i - before.len() - 1]);
        }
    }
    law_glued_split(parts, ',');
    assert(parts[0] == before[0]);
    lemma_no_cpus(before);
    assert(before.push(part).drop_last() =~= before);
    assert(first_cpus(before.push(part)) == Some(cpus));
    lemma_first_cpus_prefix(before.push(part), after);
}

/// Whether a part starts with `cpus=`.
pub open spec fn starts_with_key(part: Seq<char>) -> bool {
    part.len() >= 5 && part[0] == 'c' && part[1] == 'p' && part[2] == 'u' && part[3] == 's'
        && part[4] == '='
}

proof fn lemma_no_cpus(parts: Seq<Seq<char>>)
    requires
        forall|i: int| 0 <= i < parts.len() ==> !starts_with_key(#[trigger] parts[i]),
    ensures
        first_cpus(parts) is None,
    decreases parts.len(),
{
    if parts.len() > 0 {
        let front = parts.drop_last();
        assert forall|i: int| 0 <= i < front.len() implies !starts_with_key(
            #[trigger] front[i],
        ) by {
            assert(front[i] == parts[i]);
        }
        lemma_no_cpus(front);
        reveal_strlit("cpus=");
        let last = parts[parts.len() - 1];
        if last.len() >= 5 && last.take(5) == "cpus="@ {
            let key = last.take(5);
            assert(key[0] == last[0] && key[1] == last[1] && key[2] == last[2] && key[3] == last[3]
                && key[4] == last[4]);
        }
    }
}

/// Parts of which the first is no plain number and none starts with `cpus=`
/// hold no count.
pub proof fn law_no_count_without_number_or_key(parts: Seq<Seq<char>>)
    requires
        parts.len() > 0,
        number_in(parts[0]) is None,
        forall|i: int|
            0 <= i < parts.len() ==> is_free_of(#[trigger] parts[i], ',') && !starts_with_key(
                parts[i],
            ),
    ensures
        smp_value(glued(parts, ',')) is None,
{
    law_glued_split(parts, ',');
    lemma_no_cpus(parts);
}

/// Without a processor count the arguments stay as they are; with one, an
/// argument list without `-smp` gets it at the end, and what is read back is
/// the count.
pub proof fn law_count_set_only_if_given(args: Seq<Seq<char>>, cpus: usize)
    ensures
        smp_set(args, None) == args,
        !dangling_smp(args) ==> smp_in(smp_set(args, Some(cpus))) == Some(cpus),
        (forall|i: int| 0 <= i < args.len() ==> #[trigger] args[i] != "-smp"@) ==> smp_set(
            args,
            Some(cpus),
        ) == args.push("-smp"@).push(decimal(cpus as nat)),
{
    if !dangling_smp(args) {
        law_smp_read_back(args, cpus);
    }
    if forall|i: int| 0 <= i < args.len() ==> #[trigger] args[i] != "-smp"@ {
        law_first_smp_counts(args, Seq::empty(), Seq::empty(), cpus);
    }
}

} // verus!
