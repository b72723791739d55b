use vstd::prelude::*;
use vstd::assert_seqs_equal;
use crate::instance::{CommandModel, InstanceMessage, InstanceState, LaunchRequest, StateModel};
use crate::paths::{join, path_join};

verus! {

/// The directory that receives an instance's launch logs.
pub open spec fn log_dir_of(path: Seq<char>) -> Seq<char> {
    path_join(path, "logs"@)
}

/// The file that receives the standard output of a launch.
pub open spec fn out_log_of(path: Seq<char>, stamp: Seq<char>) -> Seq<char> {
    path_join(log_dir_of(path), stamp + ".out"@)
}

/// The file that receives the standard error of a launch.
pub open spec fn err_log_of(path: Seq<char>, stamp: Seq<char>) -> Seq<char> {
    path_join(log_dir_of(path), stamp + ".err"@)
}

/// The arguments the executable is run with: the debug flag alone, or none.
pub open spec fn launch_args_of(debug: bool, args: Seq<String>) -> bool {
    if debug {
        args.len() == 1 && args[0]@ == "-d"@
    } else {
        args.len() == 0
    }
}

pub open spec fn is_digit(c: char) -> bool {
    '0' <= c && c <= '9'
}

/// A year as chrono's `%Y` writes it: at least four digits, with a sign
/// in front where it is needed.
pub open spec fn year_text(y: Seq<char>) -> bool {
    &&& y.len() >= 4
    &&& forall|i: int|
        0 <= i < y.len() ==> is_digit(#[trigger] y[i]) || (i == 0 && (y[i] == '+' || y[i]
            == '-'))
}

/// What holds of every stamp: a year, then `-MM-DD HH-MM-SS` in digits.
pub open spec fn stamp_shape(stamp: Seq<char>) -> bool {
    &&& stamp.len() >= 19
    &&& year_text(stamp.subrange(0, stamp.len() - 15))
    &&& forall|i: int|
        0 <= i < 15 ==> {
            let c = #[trigger] stamp[stamp.len() - 15 + i];
            if i == 0 || i == 3 || i == 9 || i == 12 {
                c == '-'
            } else if i == 6 {
                c == ' '
            } else {
                is_digit(c)
            }
        }
}

/// Relies on chrono's `DateTime<Local>::from(SystemTime)` and
/// `format("%F %H-%M-%S")`: the local time now, to the second. chrono
/// documents `%Y` as the year zero-padded to four digits, with a sign
/// before years outside 0 to 9999, and `%m`, `%d`, `%H`, `%M` and `%S` as
/// two digits each; the separators are `-` and one space.
#[verifier::external_body]
fn local_log_stamp() -> (r: String)
    ensures
        stamp_shape(r@),
{
    chrono::DateTime::<chrono::Local>::from(std::time::SystemTime::now()).format(
        "%F %H-%M-%S",
    ).to_string()
}

pub fn log_dir(path: &str) -> (r: String)
    ensures
        r@ == log_dir_of(path@),
{
    join(path, "logs")
}

/// The two log files of a launch at `path` stamped `stamp`.
pub fn log_files(path: &str, stamp: &str) -> (r: (String, String))
    ensures
        r.0@ == out_log_of(path@, stamp@),
        r.1@ == err_log_of(path@, stamp@),
{
    let dir = log_dir(path);
    let out_name = String::from_str(stamp).concat(".out");
    let err_name = String::from_str(stamp).concat(".err");
    (join(dir.as_str(), out_name.as_str()), join(dir.as_str(), err_name.as_str()))
}

pub fn launch_args(debug: bool) -> (r: Vec<String>)
    ensures
        launch_args_of(debug, r@),
{
    let mut args: Vec<String> = Vec::new();
    if debug {
        args.push(String::from_str("-d"));
    }
    args
}

/// Where a launch session stands.
#[derive(Clone, Copy, Debug, PartialEq, Eq, Structural)]
pub enum LaunchPhase {
    PausingAudio,
    PreparingLogs,
    Running,
    WritingLogs,
    ResumingAudio,
    Finished,
}

/// What the outside world reports back to a launch session.
#[derive(Clone, Debug)]
pub enum LaunchEvent {
    AudioPaused,
    LogsPrepared(bool),
    ProcessExited { success: bool, stdout: Vec<u8>, stderr: Vec<u8> },
    ProcessFailedToStart,
    LogsWritten(bool),
    AudioResumed,
}

pub enum EventKind {
    AudioPaused,
    LogsPrepared(bool),
    ProcessExited(bool),
    ProcessFailedToStart,
    LogsWritten(bool),
    AudioResumed,
}

impl LaunchEvent {
    pub open spec fn kind(&self) -> EventKind {
        match self {
            LaunchEvent::AudioPaused => EventKind::AudioPaused,
            LaunchEvent::LogsPrepared(ok) => EventKind::LogsPrepared(*ok),
            LaunchEvent::ProcessExited { success, .. } => EventKind::ProcessExited(*success),
            LaunchEvent::ProcessFailedToStart => EventKind::ProcessFailedToStart,
            LaunchEvent::LogsWritten(ok) => EventKind::LogsWritten(*ok),
            LaunchEvent::AudioResumed => EventKind::AudioResumed,
        }
    }
}

/// What a launch session asks the outside world to do next.
#[derive(Clone, Debug)]
pub enum LaunchAction {
    PauseAudio,
    PrepareLogs { dir: String, out_file: String, err_file: String },
    RunProcess { executable: String, args: Vec<String> },
    WriteLogs {
        out_file: String,
        err_file: String,
        stdout: Vec<u8>,
        stderr: Vec<u8>,
        report_output: bool,
    },
    ResumeAudio,
    Finish { path: String, message: InstanceMessage },
}

pub enum ActionKind {
    PauseAudio,
    PrepareLogs,
    RunProcess,
    WriteLogs,
    ResumeAudio,
    Finish,
}

impl LaunchAction {
    pub open spec fn kind(&self) -> ActionKind {
        match self {
            LaunchAction::PauseAudio => ActionKind::PauseAudio,
            LaunchAction::PrepareLogs { .. } => ActionKind::PrepareLogs,
            LaunchAction::RunProcess { .. } => ActionKind::RunProcess,
            LaunchAction::WriteLogs { .. } => ActionKind::WriteLogs,
            LaunchAction::ResumeAudio => ActionKind::ResumeAudio,
            LaunchAction::Finish { .. } => ActionKind::Finish,
        }
    }
}

/// The phase a session moves to on an event; events that do not fit the
/// phase leave it unchanged.
pub open spec fn next_phase(p: LaunchPhase, e: EventKind) -> LaunchPhase {
    match (p, e) {
        (LaunchPhase::PausingAudio, EventKind::AudioPaused) => LaunchPhase::PreparingLogs,
        (LaunchPhase::PreparingLogs, EventKind::LogsPrepared(ok)) => if ok {
            LaunchPhase::Running
        } else {
            LaunchPhase::ResumingAudio
        },
        (LaunchPhase::Running, EventKind::ProcessExited(_)) => LaunchPhase::WritingLogs,
        (LaunchPhase::Running, EventKind::ProcessFailedToStart) => LaunchPhase::ResumingAudio,
        (LaunchPhase::WritingLogs, EventKind::LogsWritten(_)) => LaunchPhase::ResumingAudio,
        (LaunchPhase::ResumingAudio, EventKind::AudioResumed) => LaunchPhase::Finished,
        _ => p,
    }
}

/// The kind of action a session asks for on an event, if any.
pub open spec fn next_action(p: LaunchPhase, e: EventKind) -> Option<ActionKind> {
    match (p, e) {
        (LaunchPhase::PausingAudio, EventKind::AudioPaused) => Some(ActionKind::PrepareLogs),
        (LaunchPhase::PreparingLogs, EventKind::LogsPrepared(ok)) => if ok {
            Some(ActionKind::RunProcess)
        } else {
            Some(ActionKind::ResumeAudio)
        },
        (LaunchPhase::Running, EventKind::ProcessExited(_)) => Some(ActionKind::WriteLogs),
        (LaunchPhase::Running, EventKind::ProcessFailedToStart) => Some(ActionKind::ResumeAudio),
        (LaunchPhase::WritingLogs, EventKind::LogsWritten(_)) => Some(ActionKind::ResumeAudio),
        (LaunchPhase::ResumingAudio, EventKind::AudioResumed) => Some(ActionKind::Finish),
        _ => None,
    }
}

/// One launch of an instance's executable, from pausing the ambient audio
/// to reporting the instance `Ready` again.
#[derive(Clone, Debug)]
pub struct LaunchSession {
    pub request: LaunchRequest,
    pub stamp: String,
    pub phase: LaunchPhase,
}

impl LaunchSession {
    /// The data an action carries, as this session must hand it out.
    pub open spec fn action_carries(&self, e: LaunchEvent, a: LaunchAction) -> bool {
        match a {
            LaunchAction::PrepareLogs { dir, out_file, err_file } => dir@ == log_dir_of(
                self.request.path@,
            ) && out_file@ == out_log_of(self.request.path@, self.stamp@) && err_file@
                == err_log_of(self.request.path@, self.stamp@),
            LaunchAction::RunProcess { executable, args } => executable == self.request.executable
                && launch_args_of(self.request.debug, args@),
            LaunchAction::WriteLogs { out_file, err_file, stdout, stderr, report_output } => {
                &&& e matches LaunchEvent::ProcessExited { success, stdout: o, stderr: r }
                &&& stdout@ == o@ && stderr@ == r@ && report_output == !success
                &&& out_file@ == out_log_of(self.request.path@, self.stamp@)
                &&& err_file@ == err_log_of(self.request.path@, self.stamp@)
            },
            LaunchAction::Finish { path, message } => path == self.request.path && message@
                == CommandModel::StateChanged(StateModel::Ready),
            _ => true,
        }
    }

    /// Starts a launch whose log files carry `stamp`; the first action
    /// pauses the ambient audio.
    pub fn with_stamp(request: LaunchRequest, stamp: String) -> (r: (LaunchSession, LaunchAction))
        ensures
            r.0.request == request,
            r.0.stamp == stamp,
            r.0.phase == LaunchPhase::PausingAudio,
            r.1 is PauseAudio,
    {
        (LaunchSession { request, stamp, phase: LaunchPhase::PausingAudio }, LaunchAction::PauseAudio)
    }

    /// Starts a launch stamped with the local time now.
    pub fn start(request: LaunchRequest) -> (r: (LaunchSession, LaunchAction))
        ensures
            r.0.request == request,
            stamp_shape(r.0.stamp@),
            r.0.phase == LaunchPhase::PausingAudio,
            r.1 is PauseAudio,
    {
        let stamp = local_log_stamp();
        LaunchSession::with_stamp(request, stamp)
    }

    /// Takes one report from the outside world and returns the next action.
    pub fn advance(&mut self, event: LaunchEvent) -> (r: Option<LaunchAction>)
        ensures
            final(self).request == old(self).request,
            final(self).stamp == old(self).stamp,
            final(self).phase == next_phase(old(self).phase, event.kind()),
            match r {
                Some(a) => next_action(old(self).phase, event.kind()) == Some(a.kind())
                    && old(self).action_carries(event, a),
                None => next_action(old(self).phase, event.kind()) is None,
            },
    {
        match (self.phase, event) {
            (LaunchPhase::PausingAudio, LaunchEvent::AudioPaused) => {
                let (out_file, err_file) = log_files(self.request.path.as_str(), self.stamp.as_str());
                self.phase = LaunchPhase::PreparingLogs;
                Some(
                    LaunchAction::PrepareLogs {
                        dir: log_dir(self.request.path.as_str()),
                        out_file,
                        err_file,
                    },
                )
            },
            (LaunchPhase::PreparingLogs, LaunchEvent::LogsPrepared(ok)) => {
                if ok {
                    self.phase = LaunchPhase::Running;
                    Some(
                        LaunchAction::RunProcess {
                            executable: self.request.executable.clone(),
                            args: launch_args(self.request.debug),
                        },
                    )
                } else {
                    self.phase = LaunchPhase::ResumingAudio;
                    Some(LaunchAction::ResumeAudio)
                }
            },
            (LaunchPhase::Running, LaunchEvent::ProcessExited { success, stdout, stderr }) => {
                let (out_file, err_file) = log_files(self.request.path.as_str(), self.stamp.as_str());
                self.phase = LaunchPhase::WritingLogs;
                Some(
                    LaunchAction::WriteLogs {
                        out_file,
                        err_file,
                        stdout,
                        stderr,
                        report_output: !success,
                    },
                )
            },
            (LaunchPhase::Running, LaunchEvent::ProcessFailedToStart) => {
                self.phase = LaunchPhase::ResumingAudio;
                Some(LaunchAction::ResumeAudio)
            },
            (LaunchPhase::WritingLogs, LaunchEvent::LogsWritten(_)) => {
                self.phase = LaunchPhase::ResumingAudio;
                Some(LaunchAction::ResumeAudio)
            },
            (LaunchPhase::ResumingAudio, LaunchEvent::AudioResumed) => {
                self.phase = LaunchPhase::Finished;
                Some(
                    LaunchAction::Finish {
                        path: self.request.path.clone(),
                        message: InstanceMessage::StateChanged(InstanceState::Ready),
                    },
                )
            },
            _ => None,
        }
    }
}


/// A launch whose log files cannot be prepared, whose process fails to
/// start, or whose logs cannot be written still resumes the ambient audio,
/// and after that reports the instance `Ready`.
pub proof fn lemma_failed_launch_still_restores(p: LaunchPhase, e: EventKind)
    requires
        (p == LaunchPhase::PreparingLogs && e == EventKind::LogsPrepared(false)) || (p
            == LaunchPhase::Running && e is ProcessFailedToStart) || (p == LaunchPhase::WritingLogs
            && e is LogsWritten),
    ensures
        next_phase(p, e) == LaunchPhase::ResumingAudio,
        next_action(p, e) == Some(ActionKind::ResumeAudio),
        next_phase(LaunchPhase::ResumingAudio, EventKind::AudioResumed) == LaunchPhase::Finished,
        next_action(LaunchPhase::ResumingAudio, EventKind::AudioResumed) == Some(ActionKind::Finish),
{
}

/// A session reports back only from the phase it enters by resuming the
/// ambient audio, and every way into that phase asks to resume it.
pub proof fn lemma_finish_follows_resume(p: LaunchPhase, e: EventKind)
    ensures
        next_action(p, e) == Some(ActionKind::Finish) ==> p == LaunchPhase::ResumingAudio,
        next_phase(p, e) == LaunchPhase::ResumingAudio && p != LaunchPhase::ResumingAudio
            ==> next_action(p, e) == Some(ActionKind::ResumeAudio),
{
}

/// A joined path ends with the component joined on.
pub proof fn lemma_join_ends_with(base: Seq<char>, comp: Seq<char>)
    ensures
        path_join(base, comp).len() >= comp.len(),
        path_join(base, comp).subrange(
            path_join(base, comp).len() - comp.len(),
            path_join(base, comp).len() as int,
        ) == comp,
{
    let r = path_join(base, comp);
    assert(r.subrange(r.len() - comp.len(), r.len() as int) =~= comp);
}

/// The two log files of a launch are distinct: one ends in `.out`, the
/// other in `.err`, after the same stamp.
pub proof fn lemma_log_files_distinct(path: Seq<char>, stamp: Seq<char>)
    ensures
        out_log_of(path, stamp) != err_log_of(path, stamp),
        out_log_of(path, stamp).last() == 't',
        err_log_of(path, stamp).last() == 'r',
{
    reveal_strlit(".out");
    reveal_strlit(".err");
    let o = stamp + ".out"@;
    let e = stamp + ".err"@;
    lemma_join_ends_with(log_dir_of(path), o);
    lemma_join_ends_with(log_dir_of(path), e);
    let ro = out_log_of(path, stamp);
    let re = err_log_of(path, stamp);
    assert(ro.last() == ro.subrange(ro.len() - o.len(), ro.len() as int)[o.len() - 1]);
    assert(re.last() == re.subrange(re.len() - e.len(), re.len() as int)[e.len() - 1]);
}


/// Joining a component that is not absolute onto a base that does not
/// end in a separator puts one separator between them.
pub proof fn lemma_join_plain(base: Seq<char>, comp: Seq<char>)
    requires
        base.len() > 0,
        base.last() != '/',
        comp.len() > 0,
        comp[0] != '/',
    ensures
        path_join(base, comp) == base + seq!['/'] + comp,
{
}

/// The logs directory ends in `s`, never in a separator.
pub proof fn lemma_log_dir_last(path: Seq<char>)
    ensures
        log_dir_of(path).len() > 0,
        log_dir_of(path).last() == 's',
{
    reveal_strlit("logs");
    lemma_join_ends_with(path, "logs"@);
    let d = log_dir_of(path);
    assert(d.last() == d.subrange(d.len() - 4, d.len() as int)[3]);
}

/// A stamp starts with a digit or a sign, never with a separator.
pub proof fn lemma_stamp_first(stamp: Seq<char>)
    requires
        stamp_shape(stamp),
    ensures
        stamp[0] != '/',
{
    let y = stamp.subrange(0, stamp.len() - 15);
    assert(y[0] == stamp[0]);
    assert(is_digit(y[0]) || y[0] == '+' || y[0] == '-');
}

/// A stamp names files directly in the logs directory:
/// `<path>/logs/<stamp>.out` and `.err`.
pub proof fn lemma_logs_under_log_dir(path: Seq<char>, stamp: Seq<char>)
    requires
        stamp_shape(stamp),
    ensures
        out_log_of(path, stamp) == log_dir_of(path) + seq!['/'] + stamp + ".out"@,
        err_log_of(path, stamp) == log_dir_of(path) + seq!['/'] + stamp + ".err"@,
{
    let d = log_dir_of(path);
    lemma_log_dir_last(path);
    lemma_stamp_first(stamp);
    let o = stamp + ".out"@;
    let e = stamp + ".err"@;
    assert(o[0] == stamp[0]);
    assert(e[0] == stamp[0]);
    lemma_join_plain(d, o);
    lemma_join_plain(d, e);
    assert_seqs_equal!(d + seq!['/'] + o, d + seq!['/'] + stamp + ".out"@);
    assert_seqs_equal!(d + seq!['/'] + e, d + seq!['/'] + stamp + ".err"@);
}


/// How many reports a session in phase `p` still waits for, at most.
pub open spec fn phases_left(p: LaunchPhase) -> nat {
    match p {
        LaunchPhase::PausingAudio => 5,
        LaunchPhase::PreparingLogs => 4,
        LaunchPhase::Running => 3,
        LaunchPhase::WritingLogs => 2,
        LaunchPhase::ResumingAudio => 1,
        LaunchPhase::Finished => 0,
    }
}

/// `e` is a possible outcome of the action a session in phase `p` asked
/// for.
pub open spec fn answers(p: LaunchPhase, e: EventKind) -> bool {
    match p {
        LaunchPhase::PausingAudio => e is AudioPaused,
        LaunchPhase::PreparingLogs => e is LogsPrepared,
        LaunchPhase::Running => e is ProcessExited || e is ProcessFailedToStart,
        LaunchPhase::WritingLogs => e is LogsWritten,
        LaunchPhase::ResumingAudio => e is AudioResumed,
        LaunchPhase::Finished => false,
    }
}

/// Each event answers the action asked for just before it.
pub open spec fn answered_run(p: LaunchPhase, es: Seq<EventKind>) -> bool
    decreases es.len(),
{
    es.len() == 0 || (answers(p, es[0]) && answered_run(next_phase(p, es[0]), es.drop_first()))
}

/// The phase a session reaches through the events.
pub open spec fn run_phase(p: LaunchPhase, es: Seq<EventKind>) -> LaunchPhase
    decreases es.len(),
{
    if es.len() == 0 {
        p
    } else {
        run_phase(next_phase(p, es[0]), es.drop_first())
    }
}

/// How many actions of kind `k` a session asks for through the events.
pub open spec fn run_count(p: LaunchPhase, es: Seq<EventKind>, k: ActionKind) -> nat
    decreases es.len(),
{
    if es.len() == 0 {
        0
    } else {
        (if next_action(p, es[0]) == Some(k) {
            1nat
        } else {
            0nat
        }) + run_count(next_phase(p, es[0]), es.drop_first(), k)
    }
}

/// Whatever the outcomes of its actions, a launch ends within five
/// reports: every unfinished phase has outcomes to answer, each answer
/// moves the session on, and a finished session takes none. A session
/// started by pausing the audio that has ended has asked exactly once to
/// resume the audio and exactly once to report the instance `Ready`.
pub proof fn lemma_launch_always_finishes_once(p: LaunchPhase, es: Seq<EventKind>)
    requires
        answered_run(p, es),
    ensures
        es.len() <= phases_left(p),
        p != LaunchPhase::Finished ==> exists|e: EventKind| answers(p, e),
        run_phase(p, es) == LaunchPhase::Finished && p != LaunchPhase::Finished ==> run_count(
            p,
            es,
            ActionKind::Finish,
        ) == 1,
        run_phase(p, es) == LaunchPhase::Finished && p != LaunchPhase::Finished && p
            != LaunchPhase::ResumingAudio ==> run_count(p, es, ActionKind::ResumeAudio) == 1,
        p == LaunchPhase::Finished ==> run_count(p, es, ActionKind::Finish) == 0,
        p == LaunchPhase::ResumingAudio || p == LaunchPhase::Finished ==> run_count(
            p,
            es,
            ActionKind::ResumeAudio,
        ) == 0,
    decreases es.len(),
{
    if p != LaunchPhase::Finished {
        let e = match p {
            LaunchPhase::PausingAudio => EventKind::AudioPaused,
            LaunchPhase::PreparingLogs => EventKind::LogsPrepared(true),
            LaunchPhase::Running => EventKind::ProcessFailedToStart,
            LaunchPhase::WritingLogs => EventKind::LogsWritten(true),
            _ => EventKind::AudioResumed,
        };
        assert(answers(p, e));
    }
    if es.len() > 0 {
        let q = next_phase(p, es[0]);
        lemma_launch_always_finishes_once(q, es.drop_first());
        if q == LaunchPhase::Finished {
            assert(es.drop_first().len() == 0);
        }
    }
}

} // verus!
