//! What the calls of the build tool come to, and how they go together.

use vstd::prelude::*;

use crate::case_assets::{
    add_case_args, case_sh_source_dir, case_uses_usb_qemu_assets, create_usb_backing_image,
    prepare_case_assets, prepare_case_rootfs, prepare_sh_case_assets_sync, reset_dir,
    resolve_target_dir, validate_case_host_outputs, AssetOp, CaseAssetLayout, CaseAssetWork,
    HostOutputs, StarryCaseAssets,
};
use crate::cli::{
    ensure_board_test_args, ArgsBoard, ArgsBuild, ArgsQemu, ArgsTestBoard, ArgsTestQemu, ArgsUboot,
    StarryCliArgs,
};
use crate::error::StarryError;
use crate::notices::{qemu_case_error, with_context};
use crate::paths::{join, path_join};
use crate::pcap::{
    carries, has_pcap_magic, law_submitted_data_comes_back, packets_bytes,
    parse_usb_audio_iso_payloads, sized_packet, Packet, PcapError,
};
use crate::request::{
    PrepareCall, PreparedRequest, ResolvedStarryRequest, SnapshotId, SnapshotPersistence, Stage,
    UbootSource,
};
use crate::rootfs::{
    apply_smp_qemu_arg, ensure_rootfs_in_target_dir, law_count_set_only_if_given,
    law_cpus_read_back, law_first_smp_counts, law_plain_count_before_other_parts,
    law_plain_count_read_back, parse_smp_qemu_value, smp_from_qemu_arg, QemuConfig,
};
use crate::run::{stage_ended, Handle, Run, StageStep};
use crate::starry::Starry;
use crate::test_run::{
    cases_discovered, default_board_found, given_config_checked, groups_discovered, target_parsed,
    test_board, test_qemu, TestBoardRun, TestBoardStep, TestQemuRun, TestQemuStep,
};
use crate::test_suit::{
    DefaultBoard, StarryBoardTestGroup, StarryQemuCase, StarryQemuCaseOutcome, StarryQemuRunReport,
    StarryTestGroup,
};
use crate::text::{decimal, texts};
use crate::wave::{
    chunks_bytes, compare_pcm_payload, law_other_chunks_ignored, parse_pcm_wave_bytes, sized_chunk,
    wave_header, Chunk, ParsedPcmWave, PayloadMismatch, WaveError,
};

verus! {

/// Whether a call prepares a request from these build arguments.
pub open spec fn prepares(stage: Stage, args: ArgsBuild) -> bool {
    &&& stage.before@.len() == 0
    &&& stage.prepare is Some
    &&& stage.prepare->0.args.config == args.config
    &&& stage.prepare->0.args.arch == args.arch
    &&& stage.prepare->0.args.target == args.target
    &&& stage.prepare->0.args.smp == args.smp
    &&& stage.prepare->0.args.debug == args.debug
}

/// The commands that build prepare their request from the same build arguments
/// in the same way, and hand on what else they were given.
pub proof fn law_build_arguments_kept_by_calls(
    starry: Starry,
    build: ArgsBuild,
    qemu: ArgsQemu,
    uboot: ArgsUboot,
    board: ArgsBoard,
    converted: StarryCliArgs,
    built: Stage,
    emulated: Stage,
    booted: Stage,
    boarded: Stage,
)
    requires
        call_ensures(<StarryCliArgs as From<&ArgsBuild>>::from, (&build,), converted),
        call_ensures(Starry::build, (&starry, build), built),
        call_ensures(Starry::qemu, (&starry, qemu), emulated),
        call_ensures(Starry::uboot, (&starry, uboot), booted),
        call_ensures(Starry::board, (&starry, board), boarded),
    ensures
        converted.config == build.config,
        converted.arch == build.arch,
        converted.target == build.target,
        converted.smp == build.smp,
        converted.debug == build.debug,
        prepares(built, build),
        prepares(emulated, qemu.build),
        prepares(booted, uboot.build),
        prepares(boarded, board.build),
        qemu.build == build ==> emulated.prepare->0.args == built.prepare->0.args,
        uboot.build == build ==> booted.prepare->0.args == built.prepare->0.args,
        board.build == build ==> boarded.prepare->0.args == built.prepare->0.args,
        emulated.prepare->0.qemu_config == qemu.qemu_config,
        emulated.prepare->0.after->rootfs == qemu.rootfs,
        uboot.uboot_config is None ==> booted.prepare->0.uboot_config is Absent,
        uboot.uboot_config is Some ==> booted.prepare->0.uboot_config == UbootSource::Path(
            uboot.uboot_config->0,
        ),
        boarded.prepare->0.after->board_config == board.board_config,
        boarded.prepare->0.after->board_type == board.board_type,
        boarded.prepare->0.after->server == board.server,
        boarded.prepare->0.after->port == board.port,
{
}

/// The snapshot of a request is stored exactly if that is asked for; the
/// request is the one that was resolved.
pub proof fn law_snapshot_stored_if_asked(
    request: ResolvedStarryRequest,
    snapshot: SnapshotId,
    error: StarryError,
    stored: Result<PreparedRequest, StarryError>,
    discarded: Result<PreparedRequest, StarryError>,
    failed: Result<PreparedRequest, StarryError>,
)
    requires
        call_ensures(
            Starry::prepare_request,
            (Ok((request, snapshot)), SnapshotPersistence::Store),
            stored,
        ),
        call_ensures(
            Starry::prepare_request,
            (Ok((request, snapshot)), SnapshotPersistence::Discard),
            discarded,
        ),
        call_ensures(
            Starry::prepare_request,
            (Err(error), SnapshotPersistence::Store),
            failed,
        ),
    ensures
        stored is Ok && discarded is Ok,
        stored->Ok_0.request == request && discarded->Ok_0.request == request,
        stored->Ok_0.store == Some(snapshot),
        discarded->Ok_0.store is None,
        failed is Err && failed->Err_0 == error,
{
}

/// A processor count that is set is the one that is read afterwards, where no
/// `-smp` was there; no count leaves the arguments as they are.
pub proof fn law_set_count_is_read(cpus: usize)
    ensures
        forall|qemu: &mut QemuConfig, after: &QemuConfig, set: (), read: Option<usize>|
            #[trigger] call_ensures(apply_smp_qemu_arg, (qemu, Some(cpus)), set)
                && #[trigger] call_ensures(smp_from_qemu_arg, (after,), read)
                && *after == *final(qemu) && (forall|i: int|
                0 <= i < qemu.args@.len() ==> #[trigger] qemu.args@[i]@ != "-smp"@) ==> {
                &&& read == Some(cpus)
                &&& texts(after.args@) == texts(qemu.args@).push("-smp"@).push(
                    decimal(cpus as nat),
                )
            },
        forall|qemu: &mut QemuConfig, set: ()| #[trigger]
            call_ensures(apply_smp_qemu_arg, (qemu, None), set) ==> texts(final(qemu).args@)
                == texts(qemu.args@),
{
    assert forall|qemu: &mut QemuConfig, after: &QemuConfig, set: (), read: Option<usize>|
        #[trigger] call_ensures(apply_smp_qemu_arg, (qemu, Some(cpus)), set)
            && #[trigger] call_ensures(smp_from_qemu_arg, (after,), read)
            && *after == *final(qemu) && (forall|i: int|
            0 <= i < qemu.args@.len() ==> #[trigger] qemu.args@[i]@ != "-smp"@) implies read
        == Some(cpus) && texts(after.args@) == texts(qemu.args@).push("-smp"@).push(
        decimal(cpus as nat),
    ) by {
        let args = texts(qemu.args@);
        assert forall|i: int| 0 <= i < args.len() implies #[trigger] args[i] != "-smp"@ by {
            assert(args[i] == qemu.args@[i]@);
        }
        law_count_set_only_if_given(args, cpus);
        law_first_smp_counts(args, decimal(cpus as nat), Seq::empty(), cpus);
        assert(args.push("-smp"@).push(decimal(cpus as nat)) + Seq::<Seq<char>>::empty()
            =~= args.push("-smp"@).push(decimal(cpus as nat)));
        law_plain_count_read_back(cpus);
    }
    assert forall|qemu: &mut QemuConfig, set: ()| #[trigger]
        call_ensures(apply_smp_qemu_arg, (qemu, None), set) implies texts(final(qemu).args@)
        == texts(qemu.args@) by {
        law_count_set_only_if_given(texts(qemu.args@), cpus);
    }
}

/// The count in a value is read whole: behind the key or plain, alone or with
/// further parts behind it.
pub proof fn law_count_read_whole(
    cpus: usize,
    rest: Seq<char>,
    keyed: &str,
    keyed_more: &str,
    plain_more: &str,
    counts: (Option<usize>, Option<usize>, Option<usize>),
)
    requires
        keyed@ == "cpus="@ + decimal(cpus as nat),
        keyed_more@ == ("cpus="@ + decimal(cpus as nat)).push(',') + rest,
        plain_more@ == decimal(cpus as nat).push(',') + rest,
        call_ensures(parse_smp_qemu_value, (keyed,), counts.0),
        call_ensures(parse_smp_qemu_value, (keyed_more,), counts.1),
        call_ensures(parse_smp_qemu_value, (plain_more,), counts.2),
    ensures
        counts == (Some(cpus), Some(cpus), Some(cpus)),
{
    law_cpus_read_back(cpus, rest);
    law_plain_count_before_other_parts(cpus, rest);
}

/// A target is accepted exactly if it is the one of the architecture.
pub proof fn law_target_has_to_match(
    expected: String,
    arch: String,
    target: String,
    error: StarryError,
    checked: Result<(), StarryError>,
    unknown: Result<(), StarryError>,
)
    requires
        call_ensures(ensure_rootfs_in_target_dir, (Ok(expected), &arch, &target), checked),
        call_ensures(ensure_rootfs_in_target_dir, (Err(error), &arch, &target), unknown),
    ensures
        checked is Ok <==> target@ == expected@,
        checked is Err ==> checked->Err_0 == (StarryError::TargetMismatch {
            arch,
            expected,
            target,
        }),
        unknown == Err::<(), StarryError>(error),
{
}

/// What is parsed of a recording does not change when a chunk of another name
/// is put in or taken out, wherever that is.
pub proof fn law_other_chunks_do_not_matter(
    size: u32,
    before: Seq<Chunk>,
    other: Chunk,
    after: Seq<Chunk>,
    with: &[u8],
    without: &[u8],
    found: Result<ParsedPcmWave, WaveError>,
    expected: Result<ParsedPcmWave, WaveError>,
)
    requires
        other.id != seq![0x66u8, 0x6d, 0x74, 0x20],
        other.id != seq![0x64u8, 0x61, 0x74, 0x61],
        forall|i: int|
            0 <= i < (before.push(other) + after).len() ==> #[trigger] sized_chunk(
                before.push(other) + after,
                i,
            ),
        forall|i: int|
            0 <= i < (before + after).len() ==> #[trigger] sized_chunk(before + after, i),
        with@ == wave_header(size) + chunks_bytes(before.push(other) + after),
        without@ == wave_header(size) + chunks_bytes(before + after),
        call_ensures(parse_pcm_wave_bytes, (with,), found),
        call_ensures(parse_pcm_wave_bytes, (without,), expected),
    ensures
        found is Ok <==> expected is Ok,
        found is Err ==> found->Err_0 == expected->Err_0,
        found is Ok ==> {
            &&& found->Ok_0.channels == expected->Ok_0.channels
            &&& found->Ok_0.sample_rate == expected->Ok_0.sample_rate
            &&& found->Ok_0.byte_rate == expected->Ok_0.byte_rate
            &&& found->Ok_0.block_align == expected->Ok_0.block_align
            &&& found->Ok_0.bits_per_sample == expected->Ok_0.bits_per_sample
            &&& found->Ok_0.data@ == expected->Ok_0.data@
        },
{
    law_other_chunks_ignored(size, before, other, after);
}

/// A payload is the reference exactly if it is the same bytes; a payload of
/// another length is told apart from one that differs.
pub proof fn law_payload_compared_whole(
    reference: ParsedPcmWave,
    payload: &[u8],
    result: Result<(), PayloadMismatch>,
)
    requires
        call_ensures(compare_pcm_payload, (&reference, payload), result),
    ensures
        result is Ok <==> payload@ == reference.data@,
        payload@.len() != reference.data@.len() ==> result is Err && result->Err_0 is Length
            && result->Err_0->captured == payload@.len() && result->Err_0->reference
            == reference.data@.len(),
        payload@.len() == reference.data@.len() && payload@ != reference.data@ ==> result is Err
            && result->Err_0 is Bytes,
{
}

/// The data of the isochronous OUT packets of a capture is what is parsed of
/// it, in order and whole.
pub proof fn law_capture_gives_submitted_data(
    header: Seq<u8>,
    packets: Seq<Packet>,
    data: Seq<Seq<u8>>,
    bytes: &[u8],
    result: Result<Vec<u8>, PcapError>,
)
    requires
        header.len() == 24,
        has_pcap_magic(header),
        packets.len() == data.len(),
        forall|i: int| 0 <= i < packets.len() ==> sized_packet(#[trigger] packets[i]),
        forall|i: int| 0 <= i < packets.len() ==> carries(#[trigger] packets[i], data[i]),
        bytes@ == header + packets_bytes(packets),
        call_ensures(parse_usb_audio_iso_payloads, (bytes,), result),
    ensures
        data.flatten().len() > 0 ==> result is Ok && result->Ok_0@ == data.flatten(),
        data.flatten().len() == 0 ==> result is Err && result->Err_0 is NoPayload,
{
    law_submitted_data_comes_back(header, packets, data);
}

/// A case needs preparation exactly if it has sources, scripts or USB devices;
/// any other case runs on the rootfs as it is, with nothing added.
pub proof fn law_plain_case_left_alone(
    workspace_root: &str,
    arch: &str,
    target: &str,
    case: StarryQemuCase,
    rootfs: String,
    known: Result<String, StarryError>,
    uses_c: bool,
    uses_sh: bool,
    uses_usb: bool,
    work: Result<CaseAssetWork, StarryError>,
)
    requires
        call_ensures(case_uses_usb_qemu_assets, (arch, &case), uses_usb),
        call_ensures(
            prepare_case_assets,
            (workspace_root, arch, target, &case, rootfs, known, uses_c, uses_sh),
            work,
        ),
    ensures
        !uses_c && !uses_sh && !uses_usb <==> work is Ok && work->Ok_0 is Plain,
        work is Ok && work->Ok_0 is Plain ==> {
            &&& work->Ok_0->Plain_0.rootfs_path == rootfs
            &&& work->Ok_0->Plain_0.extra_qemu_args@.len() == 0
            &&& work->Ok_0->Plain_0.host_post_check is None
        },
        (uses_c || uses_sh || uses_usb) && known is Err ==> work == Err::<
            CaseAssetWork,
            StarryError,
        >(known->Err_0),
        uses_c || uses_sh ==> (known is Ok ==> work is Ok && work->Ok_0 is Prepare
            && work->Ok_0->Prepare_0.assets.rootfs_path
            == work->Ok_0->Prepare_0.layout.rootfs_path),
        !uses_c && !uses_sh && uses_usb ==> (known is Ok ==> work is Ok && work->Ok_0 is Prepare
            && work->Ok_0->Prepare_0.assets.rootfs_path == rootfs),
        case.name@ == "usb"@ || case.name@ == "usb-audio-iso"@ <==> uses_usb,
{
}

/// The overlay of a case with scripts is made anew, gets the scripts among its
/// programs, and is then written into the rootfs of the case.
pub proof fn law_overlay_made_anew(
    case: StarryQemuCase,
    rootfs: String,
    layout: CaseAssetLayout,
    programs: String,
    scripts: String,
    there: Result<Vec<AssetOp>, StarryError>,
    missing: Result<Vec<AssetOp>, StarryError>,
)
    requires
        call_ensures(prepare_sh_case_assets_sync, (&case, &rootfs, &layout, true), there),
        call_ensures(prepare_sh_case_assets_sync, (&case, &rootfs, &layout, false), missing),
        programs@ == path_join(layout.overlay_dir@, "usr/bin"@),
        call_ensures(case_sh_source_dir, (&case,), scripts),
    ensures
        there is Ok,
        there->Ok_0@.len() == 5,
        there->Ok_0@[0] == (AssetOp::RemoveDirIfPresent { path: layout.overlay_dir }),
        there->Ok_0@[1] == (AssetOp::CreateDirAll { path: layout.overlay_dir }),
        there->Ok_0@[2] is CreateDirAll,
        there->Ok_0@[2]->CreateDirAll_path@ == programs@,
        there->Ok_0@[3] is CopyScripts,
        there->Ok_0@[3]->dir@ == scripts@,
        there->Ok_0@[3]->CopyScripts_to@ == programs@,
        there->Ok_0@[4] == (AssetOp::InjectOverlay { rootfs, overlay: layout.overlay_dir }),
        missing is Err,
        missing->Err_0 is MissingShDir,
        missing->Err_0->MissingShDir_path@ == scripts@,
{
}

/// Whether `after` is the arguments `before` with `extra` behind them.
pub open spec fn appended(before: Seq<String>, extra: Seq<String>, after: Seq<String>) -> bool {
    &&& after.len() == before.len() + extra.len()
    &&& forall|i: int| 0 <= i < before.len() ==> (#[trigger] after[i])@ == before[i]@
    &&& forall|i: int|
        0 <= i < extra.len() ==> after[before.len() + i]@ == (#[trigger] extra[i])@
}

/// The arguments of a case come behind those of the QEMU config, which stay.
pub proof fn law_case_arguments_appended(assets: StarryCaseAssets)
    ensures
        forall|qemu: &mut QemuConfig, added: ()| #[trigger]
            call_ensures(add_case_args, (qemu, &assets), added) ==> appended(
                qemu.args@,
                assets.extra_qemu_args@,
                final(qemu).args@,
            ),
{
    assert forall|qemu: &mut QemuConfig, added: ()| #[trigger]
        call_ensures(add_case_args, (qemu, &assets), added) implies appended(
        qemu.args@,
        assets.extra_qemu_args@,
        final(qemu).args@,
    ) by {
        let after = texts(final(qemu).args@);
        let before = texts(qemu.args@);
        let extra = texts(assets.extra_qemu_args@);
        assert(after == before + extra);
        assert(after.len() == final(qemu).args@.len());
        assert forall|i: int| 0 <= i < before.len() implies (#[trigger] final(qemu).args@[i])@
            == qemu.args@[i]@ by {
            assert(after[i] == before[i]);
        }
        assert forall|i: int| 0 <= i < extra.len() implies final(qemu).args@[before.len() + i]@ == (
        #[trigger] assets.extra_qemu_args@[i])@ by {
            assert(after[before.len() + i] == extra[i]);
        }
    }
}

/// A case without a check passes whatever is found on the host; one with a
/// check fails where the capture is missing, or no longer than its header.
pub proof fn law_host_outputs_checked(
    case: StarryQemuCase,
    assets: StarryCaseAssets,
    seen: HostOutputs,
    result: Result<(), StarryError>,
)
    requires
        call_ensures(validate_case_host_outputs, (&case, &assets, seen), result),
    ensures
        assets.host_post_check is None ==> result is Ok,
        assets.host_post_check is Some && !seen.pcap_is_file ==> result is Err
            && result->Err_0 is PcapNotCreated,
        assets.host_post_check is Some && seen.pcap_is_file && seen.pcap_len is Ok
            && seen.pcap_len->Ok_0 <= 24 ==> result is Err && result->Err_0 is PcapTooSmall,
        assets.host_post_check is Some && seen.pcap_is_file && seen.pcap_len is Ok
            && seen.pcap_len->Ok_0 > 24 && !seen.reference_is_file ==> result is Err
            && result->Err_0 is ReferenceMissing,
{
}

/// What a command did first decides how it goes on: a failure ends it, and
/// otherwise its request is prepared from what the command named.
pub proof fn law_failed_stage_prepares_nothing(
    before: Run,
    call: PrepareCall,
    with: StageStep,
    without: StageStep,
)
    requires
        before.ended(),
        call_ensures(stage_ended, (before, Some(call)), with),
        call_ensures(stage_ended, (before, None), without),
    ensures
        before.failure is Some <==> with is Fail,
        before.failure is Some <==> without is Fail,
        before.failure is Some ==> with->error == before.failure->0 && without->error
            == before.failure->0,
        before.failure is None ==> with is Prepare && without is Finish,
        before.failure is None ==> {
            &&& with->inputs.args == call.args
            &&& with->inputs.qemu_config == call.qemu_config
            &&& with->inputs.persistence == call.persistence
            &&& with->after == call.after
        },
{
}

/// A run ends well exactly if nothing in it failed.
pub proof fn law_run_result_is_its_failure(run: Run, result: Result<(), StarryError>)
    requires
        run.ended(),
        call_ensures(Run::result, (run,), result),
    ensures
        result is Ok <==> run.failure is None,
        result is Err ==> Some(result->Err_0) == run.failure,
{
}

/// A run of QEMU cases goes for the target that was found, the case that was
/// named and the stress cases where they are asked for; what cannot be found
/// fails the run.
pub proof fn law_cases_looked_for_as_asked(
    args: ArgsTestQemu,
    arch: String,
    target: String,
    cases: Vec<StarryQemuCase>,
    error: StarryError,
    started: TestQemuStep,
    parsed: TestQemuStep,
    unparsed: TestQemuStep,
    discovered: TestQemuStep,
    undiscovered: TestQemuStep,
)
    requires
        call_ensures(test_qemu, (&args,), started),
        call_ensures(target_parsed, (&args, Ok((arch, target))), parsed),
        call_ensures(target_parsed, (&args, Err(error)), unparsed),
        call_ensures(
            cases_discovered,
            (arch, target, StarryTestGroup::Normal, Ok(cases)),
            discovered,
        ),
        call_ensures(
            cases_discovered,
            (arch, target, StarryTestGroup::Normal, Err(error)),
            undiscovered,
        ),
    ensures
        started is ParseTarget,
        started->ParseTarget_arch == args.arch && started->ParseTarget_target == args.target,
        parsed is DiscoverCases,
        parsed->DiscoverCases_arch == arch && parsed->DiscoverCases_target == target,
        parsed->test_case == args.test_case,
        args.stress <==> parsed->DiscoverCases_group == StarryTestGroup::Stress,
        discovered is FindDefaultBoard,
        discovered->FindDefaultBoard_arch == arch && discovered->FindDefaultBoard_target == target,
        discovered->cases@ == cases@,
        unparsed == (TestQemuStep::Fail { error }),
        undiscovered == (TestQemuStep::Fail { error }),
{
}

/// A case that ran is reported as passed exactly if its run did not fail, with
/// its time, behind the cases before it; then the next case is due.
pub proof fn law_case_reported_as_it_ran(duration: u128, error: StarryError)
    ensures
        forall|suite: &mut TestQemuRun, run: Run, shown: Result<(), StarryError>| #[trigger]
            call_ensures(TestQemuRun::case_ended, (suite, Ok(run), duration), shown)
                && suite.wf() && suite.has_next() ==> {
                let at = suite.reports@.len() as int;
                &&& final(suite).reports@.len() == at + 1
                &&& final(suite).reports@.take(at) == suite.reports@
                &&& final(suite).reports@[at].name == suite.cases@[at].name
                &&& final(suite).reports@[at].duration == duration
                &&& final(suite).reports@[at].outcome == StarryQemuCaseOutcome::Passed
                    <==> run.failure is None
                &&& shown is Ok <==> run.failure is None
                &&& final(suite).cases == suite.cases
            },
        forall|suite: &mut TestQemuRun, shown: Result<(), StarryError>| #[trigger]
            call_ensures(TestQemuRun::case_ended, (suite, Err(error), duration), shown)
                && suite.wf() && suite.has_next() ==> {
                &&& final(suite).reports@.last().outcome == StarryQemuCaseOutcome::Failed
                &&& shown is Err
                &&& final(suite).cases == suite.cases
            },
{
    assert forall|suite: &mut TestQemuRun, run: Run, shown: Result<(), StarryError>| #[trigger]
        call_ensures(TestQemuRun::case_ended, (suite, Ok(run), duration), shown) && suite.wf()
            && suite.has_next() implies final(suite).reports@.take(suite.reports@.len() as int)
        == suite.reports@ by {
        assert(final(suite).reports@.take(suite.reports@.len() as int) =~= suite.reports@);
    }
}

/// A board test config is used with a group only, and has to exist; the groups
/// that are looked for are those that were named.
pub proof fn law_board_config_needs_group(
    args: ArgsTestBoard,
    path: String,
    checked: Result<(), StarryError>,
    started: TestBoardStep,
    there: TestBoardStep,
    missing: TestBoardStep,
)
    requires
        call_ensures(ensure_board_test_args, (&args,), checked),
        call_ensures(test_board, (&args,), started),
        call_ensures(given_config_checked, (&args, &path, true), there),
        call_ensures(given_config_checked, (&args, &path, false), missing),
    ensures
        checked is Err <==> args.board_test_config is Some && args.test_group is None,
        checked is Err <==> started is Fail,
        checked is Err ==> checked->Err_0 is BoardConfigWithoutGroup && started->error
            == checked->Err_0,
        args.board_test_config is Some && args.test_group is Some ==> started is CheckGivenConfig
            && started->CheckGivenConfig_path == args.board_test_config->0,
        args.board_test_config is None ==> started is DiscoverGroups && started->test_group
            == args.test_group,
        there is DiscoverGroups && there->test_group == args.test_group,
        missing is Fail && missing->error == (StarryError::MissingBoardTestConfig { path }),
{
}

/// A group without its config has failed and is skipped; one with it is
/// prepared and not yet through.
pub proof fn law_group_without_config_fails()
    ensures
        forall|groups: &mut TestBoardRun, step: TestBoardStep| #[trigger]
            call_ensures(TestBoardRun::config_checked, (groups, false), step) && groups.wf()
                && groups.has_next() ==> {
                &&& step is SkipGroup
                &&& final(groups).passed@.len() == groups.passed@.len() + 1
                &&& !final(groups).passed@.last()
            },
        forall|groups: &mut TestBoardRun, step: TestBoardStep| #[trigger]
            call_ensures(TestBoardRun::config_checked, (groups, true), step) && groups.wf()
                && groups.has_next() ==> {
                &&& step is Prepare
                &&& final(groups).passed@ == groups.passed@
            },
{
}

/// A group has passed exactly if its run did not fail.
pub proof fn law_group_passed_as_it_ran(run: Run)
    ensures
        forall|groups: &mut TestBoardRun, step: TestBoardStep| #[trigger]
            call_ensures(TestBoardRun::group_ran, (groups, run), step) ==> {
                &&& step is GroupEnded
                &&& step->GroupEnded_index == groups.passed@.len()
                &&& final(groups).passed@.len() == groups.passed@.len() + 1
                &&& final(groups).passed@.last() <==> run.failure is None
                &&& step->result is Ok <==> run.failure is None
                &&& final(groups).groups == groups.groups
            },
{
}

/// The directory of a target stands below `target` in the workspace, and an
/// unknown target has none.
pub proof fn law_target_dir_below_workspace(
    workspace_root: &str,
    target: &str,
    arch: String,
    error: StarryError,
    below: String,
    dir: Result<String, StarryError>,
    unknown: Result<String, StarryError>,
)
    requires
        call_ensures(join, (workspace_root, "target"), below),
        call_ensures(resolve_target_dir, (workspace_root, target, Ok(arch)), dir),
        call_ensures(resolve_target_dir, (workspace_root, target, Err(error)), unknown),
    ensures
        dir is Ok,
        dir->Ok_0@ == path_join(below@, target@),
        unknown == Err::<String, StarryError>(error),
{
}

/// A prepared case is run on its request: the rootfs is ensured, the cargo
/// config loaded, and the QEMU config of the case read; whatever fails on the
/// way fails the whole run.
pub proof fn law_prepared_case_goes_on(
    suite: TestQemuRun,
    request: ResolvedStarryRequest,
    cargo: Handle,
    error: StarryError,
    prepared: TestQemuStep,
    ensured: TestQemuStep,
    loaded: TestQemuStep,
    failed: (TestQemuStep, TestQemuStep, TestQemuStep),
)
    requires
        suite.wf(),
        suite.has_next(),
        call_ensures(TestQemuRun::prepared, (&suite, Ok(request)), prepared),
        call_ensures(TestQemuRun::rootfs_ensured, (&suite, request, Ok(())), ensured),
        call_ensures(TestQemuRun::cargo_loaded, (&suite, request, Ok(cargo)), loaded),
        call_ensures(TestQemuRun::prepared, (&suite, Err(error)), failed.0),
        call_ensures(TestQemuRun::rootfs_ensured, (&suite, request, Err(error)), failed.1),
        call_ensures(TestQemuRun::cargo_loaded, (&suite, request, Err(error)), failed.2),
    ensures
        ({
            let case = suite.cases@[suite.reports@.len() as int];
            &&& case.build_config_path is Some ==> prepared == (TestQemuStep::EnsureRootfs {
                request,
            })
            &&& case.build_config_path is None && suite.default_board is None ==> prepared == (
            TestQemuStep::Fail {
                error: StarryError::MissingQemuDefconfig { target: suite.target },
            })
            &&& case.build_config_path is None && suite.default_board is Some ==> {
                let info = suite.default_board->0.build_info;
                &&& prepared is EnsureRootfs
                &&& prepared->EnsureRootfs_request.build_info_override == Some(info)
                &&& prepared->EnsureRootfs_request.plat_dyn == Some(info.plat_dyn)
                &&& prepared->EnsureRootfs_request.target == request.target
                &&& prepared->EnsureRootfs_request.arch == request.arch
                &&& prepared->EnsureRootfs_request.smp == request.smp
            }
            &&& ensured == (TestQemuStep::LoadCargoConfig { request })
            &&& loaded == (TestQemuStep::RunCase {
                request,
                cargo,
                qemu_config_path: case.qemu_config_path,
            })
        }),
        failed.0 == (TestQemuStep::Fail { error }),
        failed.1 == (TestQemuStep::Fail { error }),
        failed.2 == (TestQemuStep::Fail { error }),
{
}

/// A run of cases starts with the first of the cases that were found, and its
/// report holds what was noted of each.
pub proof fn law_suite_starts_and_reports(
    target: String,
    group: StarryTestGroup,
    cases: Vec<StarryQemuCase>,
    board: Option<DefaultBoard>,
    error: StarryError,
    suite: TestQemuRun,
    duration: u128,
    started: Result<TestQemuRun, StarryError>,
    failed: Result<TestQemuRun, StarryError>,
    report: StarryQemuRunReport,
)
    requires
        call_ensures(default_board_found, (target, group, cases, Ok(board)), started),
        call_ensures(default_board_found, (target, group, cases, Err(error)), failed),
        call_ensures(TestQemuRun::report, (suite, duration), report),
    ensures
        started is Ok,
        started->Ok_0.reports@.len() == 0,
        started->Ok_0.cases@ == cases@,
        started->Ok_0.target == target,
        started->Ok_0.group == group,
        started->Ok_0.default_board == board,
        failed is Err && failed->Err_0 == error,
        report.group == suite.group,
        report.cases@ == suite.reports@,
        report.total_duration == duration,
{
}

/// A run of board test groups starts with the first of the groups that were
/// found.
pub proof fn law_groups_start_from_first(
    args: ArgsTestBoard,
    groups: Vec<StarryBoardTestGroup>,
    error: StarryError,
    started: Result<TestBoardRun, StarryError>,
    failed: Result<TestBoardRun, StarryError>,
)
    requires
        call_ensures(groups_discovered, (args, Ok(groups)), started),
        call_ensures(groups_discovered, (args, Err(error)), failed),
    ensures
        started is Ok,
        started->Ok_0.passed@.len() == 0,
        started->Ok_0.groups@ == groups@,
        started->Ok_0.args == args,
        started->Ok_0.request is None,
        failed is Err && failed->Err_0 == error,
{
}

/// A group whose request cannot be prepared has failed with the reason; one
/// whose request was prepared is run and not yet through.
pub proof fn law_group_runs_when_prepared(request: ResolvedStarryRequest, error: StarryError)
    ensures
        forall|groups: &mut TestBoardRun, step: TestBoardStep| #[trigger]
            call_ensures(TestBoardRun::prepared, (groups, Ok(request)), step) ==> {
                &&& step is RunGroup
                &&& final(groups).passed@ == groups.passed@
                &&& final(groups).request == Some(request)
            },
        forall|groups: &mut TestBoardRun, step: TestBoardStep| #[trigger]
            call_ensures(TestBoardRun::prepared, (groups, Err(error)), step) ==> {
                &&& step is GroupEnded
                &&& step->GroupEnded_index == groups.passed@.len()
                &&& step->result == Err::<(), StarryError>(error)
                &&& final(groups).passed@.len() == groups.passed@.len() + 1
                &&& !final(groups).passed@.last()
            },
{
    assert forall|groups: &mut TestBoardRun, step: TestBoardStep| #[trigger]
        call_ensures(TestBoardRun::prepared, (groups, Err(error)), step) implies step is GroupEnded
        && step->GroupEnded_index == groups.passed@.len() by {
        assert(groups.passed@.len() == groups.passed.len());
    }
}

/// A directory is emptied before it is made; the rootfs of a case replaces the
/// one of an earlier run; the image of a USB stick has ten mebibytes.
pub proof fn law_files_made_anew(
    path: String,
    base: String,
    layout: CaseAssetLayout,
    reset: Vec<AssetOp>,
    copied: (Vec<AssetOp>, String),
    image: AssetOp,
)
    requires
        call_ensures(reset_dir, (&path,), reset),
        call_ensures(prepare_case_rootfs, (&base, &layout), copied),
        call_ensures(create_usb_backing_image, (&path,), image),
    ensures
        reset@.len() == 2,
        reset@[0] == (AssetOp::RemoveDirIfPresent { path }),
        reset@[1] == (AssetOp::CreateDirAll { path }),
        copied.0@.len() == 2,
        copied.0@[0] == (AssetOp::RemoveFileIfPresent { path: layout.rootfs_path }),
        copied.0@[1] == (AssetOp::CopyFile { from: base, to: layout.rootfs_path }),
        copied.1 == layout.rootfs_path,
        image == (AssetOp::CreateImage { path, size: 10485760 }),
{
}

/// An error that is wrapped says first what was going on, then what the error
/// said.
pub proof fn law_context_in_front_of_error(
    context: &str,
    name: &str,
    error: StarryError,
    wrapped: StarryError,
    case: StarryError,
)
    requires
        call_ensures(with_context, (context, &error), wrapped),
        call_ensures(qemu_case_error, (name, &error), case),
    ensures
        wrapped.text() == context@ + ": "@ + error.text(),
        case.text() == "starry qemu test failed for case `"@ + name@ + "`: "@ + error.text(),
{
    reveal_strlit("`");
    reveal_strlit(": ");
    reveal_strlit("`: ");
    assert("`"@ + ": "@ =~= "`: "@);
    assert("starry qemu test failed for case `"@ + name@ + "`"@ + ": "@
        =~= "starry qemu test failed for case `"@ + name@ + "`: "@);
}

} // verus!
