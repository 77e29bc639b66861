//! Runs of the test suites: what is done next, given what came of the last
//! piece of outside work.

use vstd::prelude::*;

use crate::cli::{ensure_board_test_args, text_copy, ArgsTestBoard, ArgsTestQemu, StarryCliArgs};
use crate::error::StarryError;
use crate::notices::{board_run_error, qemu_case_error};
use crate::request::{Op, PrepareInputs, ResolvedStarryRequest, SnapshotPersistence};
use crate::run::{
    nothing_known, plan_ready, start_of, Action, Handle, LoadedQemu, Outcome, Run, RunState, Values,
};
use crate::starry::{case_known, case_ops, Starry};
use crate::test_suit::{
    DefaultBoard, StarryBoardTestGroup, StarryQemuCase, StarryQemuCaseOutcome,
    StarryQemuCaseReport, StarryQemuRunReport, StarryTestGroup,
};
use crate::text::texts;

verus! {

/// What a run of QEMU cases needs next.
#[allow(inconsistent_fields)]
pub enum TestQemuStep {
    /// Find the architecture and the target that are meant.
    ParseTarget { arch: Option<String>, target: Option<String> },
    /// Find the cases to run.
    DiscoverCases {
        arch: String,
        target: String,
        test_case: Option<String>,
        group: StarryTestGroup,
    },
    /// Say what is run, and find the default board of the target.
    FindDefaultBoard {
        arch: String,
        target: String,
        group: StarryTestGroup,
        cases: Vec<StarryQemuCase>,
    },
    /// Say which case is next, and prepare its request.
    Prepare { index: usize, inputs: PrepareInputs },
    /// Make sure that the rootfs of the request is there.
    EnsureRootfs { request: ResolvedStarryRequest },
    LoadCargoConfig { request: ResolvedStarryRequest },
    /// Read the QEMU config and run the case.
    RunCase { request: ResolvedStarryRequest, cargo: Handle, qemu_config_path: String },
    /// All cases have run.
    Finish,
    /// The whole run fails.
    Fail { error: StarryError },
}

/// What the request of a test is prepared from: no configs but those of the
/// build, and the snapshot is not stored.
pub open spec fn test_inputs(args: StarryCliArgs) -> PrepareInputs {
    PrepareInputs {
        args,
        qemu_config: None,
        uboot_config: None,
        persistence: SnapshotPersistence::Discard,
    }
}

fn inputs_for_test(args: StarryCliArgs) -> (inputs: PrepareInputs)
    ensures
        inputs == test_inputs(args),
{
    PrepareInputs {
        args,
        qemu_config: None,
        uboot_config: None,
        persistence: SnapshotPersistence::Discard,
    }
}

/// The cases that are asked for.
pub open spec fn group_of(args: ArgsTestQemu) -> StarryTestGroup {
    if args.stress {
        StarryTestGroup::Stress
    } else {
        StarryTestGroup::Normal
    }
}

/// Starts a run of QEMU cases.
pub fn test_qemu(args: &ArgsTestQemu) -> (step: TestQemuStep)
    ensures
        step == (TestQemuStep::ParseTarget { arch: args.arch, target: args.target }),
{
    TestQemuStep::ParseTarget { arch: text_copy(&args.arch), target: text_copy(&args.target) }
}

/// Goes on with the architecture and the target that were found.
pub fn target_parsed(args: &ArgsTestQemu, parsed: Result<(String, String), StarryError>) -> (step:
    TestQemuStep)
    ensures
        step == (match parsed {
            Ok((arch, target)) => TestQemuStep::DiscoverCases {
                arch,
                target,
                test_case: args.test_case,
                group: group_of(*args),
            },
            Err(error) => TestQemuStep::Fail { error },
        }),
{
    let (arch, target) = match parsed {
        Ok(parsed) => parsed,
        Err(error) => return TestQemuStep::Fail { error },
    };
    let group = if args.stress {
        StarryTestGroup::Stress
    } else {
        StarryTestGroup::Normal
    };
    TestQemuStep::DiscoverCases { arch, target, test_case: text_copy(&args.test_case), group }
}

/// Goes on with the cases that were found.
pub fn cases_discovered(
    arch: String,
    target: String,
    group: StarryTestGroup,
    cases: Result<Vec<StarryQemuCase>, StarryError>,
) -> (step: TestQemuStep)
    ensures
        step == (match cases {
            Ok(cases) => TestQemuStep::FindDefaultBoard { arch, target, group, cases },
            Err(error) => TestQemuStep::Fail { error },
        }),
{
    match cases {
        Ok(cases) => TestQemuStep::FindDefaultBoard { arch, target, group, cases },
        Err(error) => TestQemuStep::Fail { error },
    }
}

/// Starts with the first case when the default board was looked for; that
/// there is none fails the run only when a case needs it.
pub fn default_board_found(
    target: String,
    group: StarryTestGroup,
    cases: Vec<StarryQemuCase>,
    default_board: Result<Option<DefaultBoard>, StarryError>,
) -> (run: Result<TestQemuRun, StarryError>)
    ensures
        match default_board {
            Ok(default_board) => {
                &&& run is Ok
                &&& run->Ok_0.wf()
                &&& run->Ok_0.group == group
                &&& run->Ok_0.target == target
                &&& run->Ok_0.cases == cases
                &&& run->Ok_0.default_board == default_board
                &&& run->Ok_0.reports@ == Seq::<StarryQemuCaseReport>::empty()
            },
            Err(error) => run == Err::<TestQemuRun, StarryError>(error),
        },
{
    match default_board {
        Ok(default_board) => Ok(TestQemuRun::new(group, target, cases, default_board)),
        Err(error) => Err(error),
    }
}

/// A run of QEMU cases, as far as it has come.
pub struct TestQemuRun {
    pub group: StarryTestGroup,
    pub target: String,
    pub cases: Vec<StarryQemuCase>,
    pub default_board: Option<DefaultBoard>,
    pub reports: Vec<StarryQemuCaseReport>,
}

/// Whether a run does the work of a case, on some request and with the QEMU
/// arguments of its config.
pub open spec fn is_case_run(run: Run, case: StarryQemuCase) -> bool {
    exists|request: ResolvedStarryRequest, qemu_args: Seq<Seq<char>>|
        run.ops@ == #[trigger] case_ops(request, case, qemu_args)
}

/// Why a case failed, if it did.
pub open spec fn failure_of(run: Result<Run, StarryError>) -> Option<StarryError> {
    match run {
        Ok(run) => run.failure,
        Err(error) => Some(error),
    }
}

/// The request of a case. A case without a build config of its own is built
/// as the default board is.
pub open spec fn resolved_for(
    request: ResolvedStarryRequest,
    case: StarryQemuCase,
    default_board: Option<DefaultBoard>,
) -> Option<ResolvedStarryRequest> {
    if case.build_config_path is Some {
        Some(request)
    } else {
        match default_board {
            Some(board) => Some(
                ResolvedStarryRequest {
                    plat_dyn: Some(board.build_info.plat_dyn),
                    build_info_override: Some(board.build_info),
                    ..request
                },
            ),
            None => None,
        }
    }
}

impl TestQemuRun {
    /// The cases that have run are the first ones, each with its report.
    pub open spec fn wf(&self) -> bool {
        &&& self.reports@.len() <= self.cases@.len()
        &&& forall|i: int|
            0 <= i < self.reports@.len() ==> (#[trigger] self.reports@[i]).name
                == self.cases@[i].name
    }

    /// Whether there is a case that has not run.
    pub open spec fn has_next(&self) -> bool {
        self.reports@.len() < self.cases@.len()
    }

    /// The next case.
    pub open spec fn case(&self) -> StarryQemuCase {
        self.cases@[self.reports@.len() as int]
    }

    /// What the next case needs.
    pub open spec fn next_step(&self) -> TestQemuStep {
        if self.has_next() {
            TestQemuStep::Prepare {
                index: self.reports@.len() as usize,
                inputs: test_inputs(
                    StarryCliArgs {
                        config: self.case().build_config_path,
                        arch: None,
                        target: Some(self.target),
                        smp: None,
                        debug: false,
                    },
                ),
            }
        } else {
            TestQemuStep::Finish
        }
    }

    /// Starts with the cases and the default board that were found.
    pub fn new(
        group: StarryTestGroup,
        target: String,
        cases: Vec<StarryQemuCase>,
        default_board: Option<DefaultBoard>,
    ) -> (run: Self)
        ensures
            run.wf(),
            run.group == group,
            run.target == target,
            run.cases == cases,
            run.default_board == default_board,
            run.reports@ == Seq::<StarryQemuCaseReport>::empty(),
    {
        TestQemuRun { group, target, cases, default_board, reports: Vec::new() }
    }

    pub fn next(&self) -> (step: TestQemuStep)
        requires
            self.wf(),
        ensures
            step == self.next_step(),
    {
        let index: usize = self.reports.len();
        if index < self.cases.len() {
            let config = text_copy(&self.cases[index].build_config_path);
            TestQemuStep::Prepare {
                index,
                inputs: inputs_for_test(Starry::test_build_args(&self.target, config)),
            }
        } else {
            TestQemuStep::Finish
        }
    }

    /// Goes on with the prepared request of the case.
    pub fn prepared(&self, request: Result<ResolvedStarryRequest, StarryError>) -> (step:
        TestQemuStep)
        requires
            self.wf(),
            self.has_next(),
        ensures
            step == (match request {
                Err(error) => TestQemuStep::Fail { error },
                Ok(request) => match resolved_for(request, self.case(), self.default_board) {
                    Some(request) => TestQemuStep::EnsureRootfs { request },
                    None => TestQemuStep::Fail {
                        error: StarryError::MissingQemuDefconfig { target: self.target },
                    },
                },
            }),
    {
        let mut request = match request {
            Ok(request) => request,
            Err(error) => return TestQemuStep::Fail { error },
        };
        let case = &self.cases[self.reports.len()];
        if case.build_config_path.is_none() {
            match &self.default_board {
                Some(board) => {
                    request.plat_dyn = Some(board.build_info.plat_dyn);
                    request.build_info_override = Some(board.build_info);
                },
                None => {
                    return TestQemuStep::Fail {
                        error: StarryError::MissingQemuDefconfig { target: self.target.clone() },
                    };
                },
            }
        }
        TestQemuStep::EnsureRootfs { request }
    }

    /// Goes on when the rootfs is there, or is not.
    pub fn rootfs_ensured(
        &self,
        request: ResolvedStarryRequest,
        result: Result<(), StarryError>,
    ) -> (step: TestQemuStep)
        ensures
            step == (match result {
                Ok(_) => TestQemuStep::LoadCargoConfig { request },
                Err(error) => TestQemuStep::Fail { error },
            }),
    {
        match result {
            Ok(_) => TestQemuStep::LoadCargoConfig { request },
            Err(error) => TestQemuStep::Fail { error },
        }
    }

    /// Goes on when the cargo config is loaded, or is not.
    pub fn cargo_loaded(
        &self,
        request: ResolvedStarryRequest,
        cargo: Result<Handle, StarryError>,
    ) -> (step: TestQemuStep)
        requires
            self.wf(),
            self.has_next(),
        ensures
            step == (match cargo {
                Ok(cargo) => TestQemuStep::RunCase {
                    request,
                    cargo,
                    qemu_config_path: self.case().qemu_config_path,
                },
                Err(error) => TestQemuStep::Fail { error },
            }),
    {
        match cargo {
            Ok(cargo) => TestQemuStep::RunCase {
                request,
                cargo,
                qemu_config_path: self.cases[self.reports.len()].qemu_config_path.clone(),
            },
            Err(error) => TestQemuStep::Fail { error },
        }
    }

    /// Starts the work on the case when its QEMU config has been read.
    pub fn config_read(
        &self,
        starry: &Starry,
        request: &ResolvedStarryRequest,
        cargo: Handle,
        qemu: LoadedQemu,
    ) -> (run: Run)
        requires
            self.wf(),
            self.has_next(),
        ensures
            run.wf(),
            run@ == start_of(
                case_ops(*request, self.case(), texts(qemu.config.args@)),
                case_known(cargo, qemu@),
            ),
            is_case_run(run, self.case()),
    {
        let run = starry.run_qemu_case(request, cargo, &self.cases[self.reports.len()], qemu);
        assert(is_case_run(run, self.case()));
        run
    }

    /// Notes how the work on the case went, or that its QEMU config could not
    /// be read; a case that failed does not end the run. Gives the error that
    /// is shown.
    pub fn case_ended(&mut self, run: Result<Run, StarryError>, duration: u128) -> (shown: Result<
        (),
        StarryError,
    >)
        requires
            old(self).wf(),
            old(self).has_next(),
            run is Ok ==> run->Ok_0.ended() && is_case_run(run->Ok_0, old(self).case()),
        ensures
            final(self).wf(),
            final(self).group == old(self).group,
            final(self).target == old(self).target,
            final(self).cases == old(self).cases,
            final(self).default_board == old(self).default_board,
            final(self).reports@ == old(self).reports@.push(
                StarryQemuCaseReport {
                    name: old(self).case().name,
                    outcome: if failure_of(run) is None {
                        StarryQemuCaseOutcome::Passed
                    } else {
                        StarryQemuCaseOutcome::Failed
                    },
                    duration,
                },
            ),
            match failure_of(run) {
                None => shown is Ok,
                Some(error) => shown is Err && shown->Err_0.text()
                    == "starry qemu test failed for case `"@ + old(self).case().name@ + "`"@ + ": "@
                    + error.text(),
            },
    {
        let name = self.cases[self.reports.len()].name.clone();
        let result = match run {
            Ok(run) => run.result(),
            Err(error) => Err(error),
        };
        let (outcome, shown) = match result {
            Ok(_) => (StarryQemuCaseOutcome::Passed, Ok(())),
            Err(error) => (
                StarryQemuCaseOutcome::Failed,
                Err(qemu_case_error(name.as_str(), &error)),
            ),
        };
        self.reports.push(StarryQemuCaseReport { name, outcome, duration });
        shown
    }

    /// The report of a run that has come to its end.
    pub fn report(self, total_duration: u128) -> (report: StarryQemuRunReport)
        ensures
            report == (StarryQemuRunReport {
                group: self.group,
                cases: self.reports,
                total_duration,
            }),
    {
        StarryQemuRunReport { group: self.group, cases: self.reports, total_duration }
    }
}

/// The names of cases.
pub open spec fn case_names(cases: Seq<StarryQemuCase>) -> Seq<String> {
    Seq::new(cases.len(), |i: int| cases[i].name)
}

/// The names in reports.
pub open spec fn reported_names(reports: Seq<StarryQemuCaseReport>) -> Seq<String> {
    Seq::new(reports.len(), |i: int| reports[i].name)
}

/// A run that finishes has a report for each case, in the order of the cases.
pub proof fn law_every_case_reported(run: TestQemuRun)
    requires
        run.wf(),
        run.next_step() is Finish,
    ensures
        reported_names(run.reports@) == case_names(run.cases@),
        run.reports@.len() == run.cases@.len(),
        forall|i: int|
            0 <= i < run.cases@.len() ==> (#[trigger] run.reports@[i]).name == run.cases@[i].name,
{
}

/// What a run of board test groups needs next.
#[allow(inconsistent_fields)]
pub enum TestBoardStep {
    /// See whether the config that was given exists.
    CheckGivenConfig { path: String },
    /// Find the groups to run.
    DiscoverGroups { test_group: Option<String> },
    /// See whether the config of the next group exists.
    CheckGroupConfig { index: usize, path: String },
    /// Say that the config of the group is missing.
    SkipGroup { index: usize, path: String },
    /// Say which group is next, and prepare its request.
    Prepare { index: usize, inputs: PrepareInputs },
    /// Do the work of this run.
    RunGroup { run: Run },
    /// Say how the group went.
    GroupEnded { index: usize, result: Result<(), StarryError> },
    /// All groups have run.
    Finish,
    /// The whole run fails.
    Fail { error: StarryError },
}

/// Starts a run of board test groups.
pub fn test_board(args: &ArgsTestBoard) -> (step: TestBoardStep)
    ensures
        step == (match args.board_test_config {
            Some(_) if args.test_group is None => TestBoardStep::Fail {
                error: StarryError::BoardConfigWithoutGroup,
            },
            Some(path) => TestBoardStep::CheckGivenConfig { path },
            None => TestBoardStep::DiscoverGroups { test_group: args.test_group },
        }),
{
    match ensure_board_test_args(args) {
        Ok(_) => {},
        Err(error) => return TestBoardStep::Fail { error },
    }
    match &args.board_test_config {
        Some(path) => TestBoardStep::CheckGivenConfig { path: path.clone() },
        None => TestBoardStep::DiscoverGroups { test_group: text_copy(&args.test_group) },
    }
}

/// Goes on when the config that was given exists, or does not.
pub fn given_config_checked(args: &ArgsTestBoard, path: &String, exists: bool) -> (step:
    TestBoardStep)
    ensures
        step == (if exists {
            TestBoardStep::DiscoverGroups { test_group: args.test_group }
        } else {
            TestBoardStep::Fail { error: StarryError::MissingBoardTestConfig { path: *path } }
        }),
{
    if !exists {
        return TestBoardStep::Fail {
            error: StarryError::MissingBoardTestConfig { path: path.clone() },
        };
    }
    TestBoardStep::DiscoverGroups { test_group: text_copy(&args.test_group) }
}

/// Starts with the first group that was found.
pub fn groups_discovered(
    args: ArgsTestBoard,
    groups: Result<Vec<StarryBoardTestGroup>, StarryError>,
) -> (run: Result<TestBoardRun, StarryError>)
    ensures
        match groups {
            Ok(groups) => {
                &&& run is Ok
                &&& run->Ok_0.wf()
                &&& run->Ok_0.args == args
                &&& run->Ok_0.groups == groups
                &&& run->Ok_0.passed@ == Seq::<bool>::empty()
                &&& run->Ok_0.request is None
            },
            Err(error) => run == Err::<TestBoardRun, StarryError>(error),
        },
{
    match groups {
        Ok(groups) => Ok(TestBoardRun::new(args, groups)),
        Err(error) => Err(error),
    }
}

/// The names of the groups that did not pass.
pub open spec fn failed_names(groups: Seq<StarryBoardTestGroup>, passed: Seq<bool>) -> Seq<String>
    decreases passed.len(),
{
    if passed.len() == 0 {
        Seq::empty()
    } else {
        let earlier = failed_names(groups, passed.drop_last());
        if passed.last() {
            earlier
        } else {
            earlier.push(groups[passed.len() - 1].name)
        }
    }
}

/// A run of board test groups, as far as it has come.
pub struct TestBoardRun {
    pub args: ArgsTestBoard,
    pub groups: Vec<StarryBoardTestGroup>,
    /// Whether each group that is through has passed.
    pub passed: Vec<bool>,
    /// The request of the group that is being run.
    pub request: Option<ResolvedStarryRequest>,
}

impl TestBoardRun {
    /// The groups that are through are the first ones, and a group that is
    /// being run is none of them.
    pub open spec fn wf(&self) -> bool {
        &&& self.passed@.len() <= self.groups@.len()
        &&& self.request is Some ==> self.has_next()
    }

    /// Whether there is a group that has not run.
    pub open spec fn has_next(&self) -> bool {
        self.passed@.len() < self.groups@.len()
    }

    /// The next group.
    pub open spec fn group(&self) -> StarryBoardTestGroup {
        self.groups@[self.passed@.len() as int]
    }

    /// The config of the next group: the one that was given, or else its own.
    pub open spec fn config(&self) -> String {
        match self.args.board_test_config {
            Some(path) => path,
            None => self.group().board_test_config_path,
        }
    }

    /// What the next group needs.
    pub open spec fn next_step(&self) -> TestBoardStep {
        if self.has_next() {
            TestBoardStep::CheckGroupConfig {
                index: self.passed@.len() as usize,
                path: self.config(),
            }
        } else {
            TestBoardStep::Finish
        }
    }

    /// How the next group is prepared.
    pub open spec fn prepare_step(&self) -> TestBoardStep {
        TestBoardStep::Prepare {
            index: self.passed@.len() as usize,
            inputs: test_inputs(
                StarryCliArgs {
                    config: Some(self.group().build_config_path),
                    arch: None,
                    target: Some(self.group().target),
                    smp: None,
                    debug: false,
                },
            ),
        }
    }

    /// The work that runs the next group.
    pub open spec fn group_ops(&self, request: ResolvedStarryRequest) -> Seq<Op> {
        seq![
            Op::LoadCargoConfig { request },
            Op::ReadBoardConfig { path: self.config() },
            Op::RunBoard {
                build_info_path: request.build_info_path,
                board_type: self.args.board_type,
                server: self.args.server,
                port: self.args.port,
            },
        ]
    }

    /// This run with one more group through.
    pub open spec fn noted(&self, after: Self, passed: bool) -> bool {
        &&& after.wf()
        &&& after.args == self.args
        &&& after.groups == self.groups
        &&& after.passed@ == self.passed@.push(passed)
        &&& after.request is None
    }

    /// Starts with the groups that were found.
    pub fn new(args: ArgsTestBoard, groups: Vec<StarryBoardTestGroup>) -> (run: Self)
        ensures
            run.wf(),
            run.args == args,
            run.groups == groups,
            run.passed@ == Seq::<bool>::empty(),
            run.request is None,
    {
        TestBoardRun { args, groups, passed: Vec::new(), request: None }
    }

    fn config_path(&self) -> (path: String)
        requires
            self.has_next(),
        ensures
            path == self.config(),
    {
        match &self.args.board_test_config {
            Some(path) => path.clone(),
            None => self.groups[self.passed.len()].board_test_config_path.clone(),
        }
    }

    pub fn next(&self) -> (step: TestBoardStep)
        requires
            self.wf(),
        ensures
            step == self.next_step(),
    {
        let index: usize = self.passed.len();
        if index < self.groups.len() {
            TestBoardStep::CheckGroupConfig { index, path: self.config_path() }
        } else {
            TestBoardStep::Finish
        }
    }

    /// Goes on when the config of the group exists; a group without its
    /// config has failed.
    pub fn config_checked(&mut self, exists: bool) -> (step: TestBoardStep)
        requires
            old(self).wf(),
            old(self).has_next(),
        ensures
            exists ==> *final(self) == *old(self) && step == old(self).prepare_step(),
            !exists ==> old(self).noted(*final(self), false) && step == (TestBoardStep::SkipGroup {
                index: old(self).passed@.len() as usize,
                path: old(self).config(),
            }),
    {
        let index: usize = self.passed.len();
        if !exists {
            let path = self.config_path();
            self.passed.push(false);
            self.request = None;
            return TestBoardStep::SkipGroup { index, path };
        }
        TestBoardStep::Prepare {
            index,
            inputs: inputs_for_test(Starry::test_board_build_args(&self.groups[index])),
        }
    }

    /// Goes on with the prepared request of the group.
    pub fn prepared(&mut self, request: Result<ResolvedStarryRequest, StarryError>) -> (step:
        TestBoardStep)
        requires
            old(self).wf(),
            old(self).has_next(),
        ensures
            match request {
                Ok(request) => {
                    &&& final(self).wf()
                    &&& final(self).args == old(self).args
                    &&& final(self).groups == old(self).groups
                    &&& final(self).passed == old(self).passed
                    &&& final(self).request == Some(request)
                    &&& step is RunGroup
                    &&& step->run.wf()
                    &&& step->run.ops@ == old(self).group_ops(request)
                    &&& step->run@ == start_of(old(self).group_ops(request), nothing_known())
                },
                Err(error) => old(self).noted(*final(self), false) && step == (
                TestBoardStep::GroupEnded {
                    index: old(self).passed@.len() as usize,
                    result: Err(error),
                }),
            },
    {
        let request = match request {
            Ok(request) => request,
            Err(error) => {
                let index: usize = self.passed.len();
                self.passed.push(false);
                self.request = None;
                return TestBoardStep::GroupEnded { index, result: Err(error) };
            },
        };
        let ops = vec![
            Op::LoadCargoConfig { request: request.duplicate() },
            Op::ReadBoardConfig { path: self.config_path() },
            Op::RunBoard {
                build_info_path: request.build_info_path.clone(),
                board_type: text_copy(&self.args.board_type),
                server: text_copy(&self.args.server),
                port: self.args.port,
            },
        ];
        assert(ops@ =~= self.group_ops(request));
        proof {
            reveal_with_fuel(plan_ready, 4);
        }
        self.request = Some(request);
        TestBoardStep::RunGroup { run: Run::new(ops, Values::nothing()) }
    }

    /// What is shown of a failure: the run of the board itself is named with
    /// its configs.
    pub open spec fn shown_text(&self, run: Run, error: StarryError) -> Seq<char> {
        if run.ops@[run.done as int] is RunBoard {
            "starry board test failed for group `"@ + self.group().name@ + "` (build_config="@
                + self.group().build_config_path@ + ", board_test_config="@ + self.config()@ + ")"@
                + ": "@ + error.text()
        } else {
            error.text()
        }
    }

    /// Notes how the work on the group went; a group that failed does not end
    /// the run.
    pub fn group_ran(&mut self, run: Run) -> (step: TestBoardStep)
        requires
            old(self).wf(),
            old(self).request is Some,
            run.wf(),
            run.ended(),
            run.ops@ == old(self).group_ops(old(self).request->0),
        ensures
            old(self).noted(*final(self), run.failure is None),
            step is GroupEnded,
            step->GroupEnded_index == old(self).passed@.len(),
            match run.failure {
                None => step->result is Ok,
                Some(error) => step->result is Err && step->result->Err_0.text() == old(
                    self,
                ).shown_text(run, error),
            },
    {
        let index: usize = self.passed.len();
        let config = self.config_path();
        let shown = match run.failure {
            None => Ok(()),
            Some(error) => if matches!(&run.ops[run.done], Op::RunBoard { .. }) {
                let group = &self.groups[index];
                Err(
                    board_run_error(
                        group.name.as_str(),
                        group.build_config_path.as_str(),
                        config.as_str(),
                        &error,
                    ),
                )
            } else {
                Err(error)
            },
        };
        self.passed.push(shown.is_ok());
        self.request = None;
        TestBoardStep::GroupEnded { index, result: shown }
    }

    /// The names of the groups that failed.
    pub fn failed(&self) -> (failed: Vec<String>)
        requires
            self.wf(),
        ensures
            failed@ == failed_names(self.groups@, self.passed@),
    {
        let mut failed: Vec<String> = Vec::new();
        for index in 0..self.passed.len()
            invariant
                self.wf(),
                failed@ == failed_names(self.groups@, self.passed@.take(index as int)),
        {
            assert(self.passed@.take(index + 1).drop_last() =~= self.passed@.take(index as int));
            if !self.passed[index] {
                failed.push(self.groups[index].name.clone());
            }
        }
        assert(self.passed@.take(self.passed@.len() as int) =~= self.passed@);
        failed
    }
}

/// A run is without failed groups exactly when each of its groups passed.
pub proof fn law_no_failure_means_all_passed(groups: Seq<StarryBoardTestGroup>, passed: Seq<bool>)
    ensures
        failed_names(groups, passed).len() == 0 <==> forall|i: int|
            0 <= i < passed.len() ==> passed[i],
    decreases passed.len(),
{
    if passed.len() > 0 {
        law_no_failure_means_all_passed(groups, passed.drop_last());
        assert(forall|i: int|
            0 <= i < passed.len() - 1 ==> passed[i] == #[trigger] passed.drop_last()[i]);
        if failed_names(groups, passed).len() == 0 {
            assert(passed.last());
            assert forall|i: int| 0 <= i < passed.len() implies passed[i] by {
                if i < passed.len() - 1 {
                    assert(passed.drop_last()[i]);
                }
            }
        }
    }
}

/// The failed groups are named in the order in which the groups ran: those of
/// a first part of the run, then those of the rest.
pub proof fn law_failed_names_in_order(
    groups: Seq<StarryBoardTestGroup>,
    passed: Seq<bool>,
    more: Seq<bool>,
)
    requires
        passed.len() + more.len() <= groups.len(),
    ensures
        failed_names(groups, passed + more) == failed_names(groups, passed) + failed_names(
            groups.skip(passed.len() as int),
            more,
        ),
    decreases more.len(),
{
    if more.len() == 0 {
        assert(passed + more =~= passed);
        assert(failed_names(groups, passed) + Seq::<String>::empty() =~= failed_names(
            groups,
            passed,
        ));
    } else {
        law_failed_names_in_order(groups, passed, more.drop_last());
        assert((passed + more).drop_last() =~= passed + more.drop_last());
    }
}

/// A case is built with its own build config where it has one, as it was
/// resolved; without one it is built as the default board is, with nothing
/// else changed, and cannot be built where there is no such board.
pub proof fn law_default_board_stands_in(
    request: ResolvedStarryRequest,
    case: StarryQemuCase,
    board: DefaultBoard,
)
    ensures
        case.build_config_path is Some ==> resolved_for(request, case, Some(board)) == Some(request)
            && resolved_for(request, case, None) == Some(request),
        case.build_config_path is None ==> {
            let resolved = resolved_for(request, case, Some(board));
            &&& resolved_for(request, case, None) is None
            &&& resolved is Some
            &&& resolved->0.plat_dyn == Some(board.build_info.plat_dyn)
            &&& resolved->0.build_info_override == Some(board.build_info)
            &&& resolved->0.package == request.package
            &&& resolved->0.arch == request.arch
            &&& resolved->0.target == request.target
            &&& resolved->0.smp == request.smp
            &&& resolved->0.debug == request.debug
            &&& resolved->0.build_info_path == request.build_info_path
            &&& resolved->0.qemu_config == request.qemu_config
            &&& resolved->0.uboot_config == request.uboot_config
        },
{
}

/// The stress cases run where they are asked for, and the normal ones
/// otherwise.
pub proof fn law_stress_selects_the_group(args: ArgsTestQemu)
    ensures
        args.stress <==> group_of(args) == StarryTestGroup::Stress,
        !args.stress <==> group_of(args) == StarryTestGroup::Normal,
{
}

/// The next case is the first without a report, and its request is prepared
/// for the target of the run, with the build config of the case and nothing
/// else set.
pub proof fn law_next_case_prepared(run: TestQemuRun)
    requires
        run.wf(),
    ensures
        run.reports@.len() == run.cases@.len() <==> run.next_step() is Finish,
        run.reports@.len() < run.cases@.len() ==> {
            let at = run.reports@.len();
            let inputs = run.next_step()->inputs;
            &&& run.next_step() is Prepare
            &&& run.next_step()->index == at
            &&& inputs.args.config == run.cases@[at as int].build_config_path
            &&& inputs.args.arch is None
            &&& inputs.args.target == Some(run.target)
            &&& inputs.args.smp is None
            &&& !inputs.args.debug
            &&& inputs.qemu_config is None
            &&& inputs.uboot_config is None
        },
{
    assert(run.cases@.len() == run.cases.len());
}

/// The next group is the first that is not through. Its board test config is
/// the one that was given, or else its own, and its request is prepared for
/// its target and build config.
pub proof fn law_next_group_prepared(run: TestBoardRun)
    requires
        run.wf(),
    ensures
        run.passed@.len() == run.groups@.len() <==> run.next_step() is Finish,
        run.passed@.len() < run.groups@.len() ==> {
            let at = run.passed@.len();
            let group = run.groups@[at as int];
            let inputs = run.prepare_step()->inputs;
            &&& run.next_step() is CheckGroupConfig
            &&& run.next_step()->CheckGroupConfig_index == at
            &&& run.args.board_test_config matches Some(path)
                ==> run.next_step()->CheckGroupConfig_path == path
            &&& run.args.board_test_config is None ==> run.next_step()->CheckGroupConfig_path
                == group.board_test_config_path
            &&& run.prepare_step() is Prepare
            &&& run.prepare_step()->Prepare_index == at
            &&& inputs.args.config == Some(group.build_config_path)
            &&& inputs.args.arch is None
            &&& inputs.args.target == Some(group.target)
            &&& inputs.args.smp is None
            &&& !inputs.args.debug
            &&& inputs.qemu_config is None
            &&& inputs.uboot_config is None
        },
{
    assert(run.groups@.len() == run.groups.len());
}

/// A group is run on its request: the cargo config of the request is loaded,
/// the board test config is read, and the board runs with what both gave and
/// with the options that were given.
pub proof fn law_group_runs_on_its_request(
    run: TestBoardRun,
    request: ResolvedStarryRequest,
    cargo: Handle,
    board: Handle,
)
    ensures
        ({
            let started = start_of(run.group_ops(request), nothing_known());
            let loaded = started.stepped(Ok(Outcome::Cargo(cargo)));
            let ready = loaded.stepped(Ok(Outcome::Board(board)));
            &&& started.active() && loaded.active() && ready.active()
            &&& forall|action: Action<'_>| #[trigger]
                started.asks(action) ==> action == (Action::LoadCargoConfig { request: &request })
            &&& forall|action: Action<'_>| #[trigger]
                loaded.asks(action) ==> match run.args.board_test_config {
                    Some(path) => action == (Action::ReadBoardConfig { cargo, path: &path }),
                    None => action == (Action::ReadBoardConfig {
                        cargo,
                        path: &run.groups@[run.passed@.len() as int].board_test_config_path,
                    }),
                }
            &&& forall|action: Action<'_>| #[trigger]
                ready.asks(action) ==> action == (Action::RunBoard {
                    cargo,
                    build_info_path: &request.build_info_path,
                    board,
                    board_type: &run.args.board_type,
                    server: &run.args.server,
                    port: run.args.port,
                })
            &&& !ready.stepped(Ok(Outcome::Done)).active()
        }),
{
    reveal_with_fuel(RunState::settled, 2);
}

/// A group is named as failed exactly if it did not pass.
pub proof fn law_failed_groups_are_named(
    groups: Seq<StarryBoardTestGroup>,
    passed: Seq<bool>,
    next: bool,
)
    requires
        passed.len() < groups.len(),
    ensures
        failed_names(groups, Seq::<bool>::empty()) == Seq::<String>::empty(),
        next ==> failed_names(groups, passed.push(next)) == failed_names(groups, passed),
        !next ==> failed_names(groups, passed.push(next)) == failed_names(groups, passed).push(
            groups[passed.len() as int].name,
        ),
{
    assert(passed.push(next).drop_last() =~= passed);
}

/// A case fails by its run: one that could not start fails with the reason,
/// and one that ran fails exactly if the run did, for the same reason.
pub proof fn law_case_fails_with_its_run(run: Run, error: StarryError)
    ensures
        failure_of(Ok(run)) is None <==> run.failure is None,
        failure_of(Ok(run)) == run.failure,
        failure_of(Err(error)) == Some(error),
{
}

/// When a group is through, its result stands behind those of the earlier
/// groups, which stay as they were, and the next group comes.
pub proof fn law_group_result_noted(before: TestBoardRun, after: TestBoardRun, passed: bool)
    requires
        before.noted(after, passed),
    ensures
        after.wf(),
        after.passed@.len() == before.passed@.len() + 1,
        after.passed@.last() == passed,
        forall|i: int| 0 <= i < before.passed@.len() ==> #[trigger] after.passed@[i]
            == before.passed@[i],
        after.groups@ == before.groups@,
        after.args == before.args,
        after.request is None,
{
}

/// A failure of the run on a board is shown with the group and its two
/// configs in front of it; any other failure is shown as it is.
pub proof fn law_board_failure_names_group(group_run: TestBoardRun, run: Run, error: StarryError)
    ensures
        run.ops@[run.done as int] is RunBoard && group_run.args.board_test_config is None
            ==> group_run.shown_text(run, error) == "starry board test failed for group `"@
            + group_run.groups@[group_run.passed@.len() as int].name@ + "` (build_config="@
            + group_run.groups@[group_run.passed@.len() as int].build_config_path@
            + ", board_test_config="@
            + group_run.groups@[group_run.passed@.len() as int].board_test_config_path@ + ")"@
            + ": "@ + error.text(),
        !(run.ops@[run.done as int] is RunBoard) ==> group_run.shown_text(run, error)
            == error.text(),
{
}

} // verus!
