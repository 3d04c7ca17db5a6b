//! Commands that are run, and what their outcome means.

use vstd::prelude::*;

use crate::admin::error::{AdminServiceError, ErrorView};
use crate::encoding::{lossy_text, text_of_bytes};
use crate::text::{
    before, chars_before, chars_of, is_blank, is_whitespace, parts_around, string_of, trim,
    trim_chars, trim_end, trim_end_chars, trimmed, trimming_takes_only_blanks,
    trimming_takes_the_blanks, views,
};

verus! {

/// A command to run.
#[derive(Debug)]
pub struct CommandLine {
    /// The program.
    pub program: String,
    /// Its arguments.
    pub args: Vec<String>,
    /// The environment variables that are set for it.
    pub envs: Vec<(String, String)>,
}

/// What a [`CommandLine`] says.
#[verifier::ext_equal]
pub struct CommandView {
    /// The program.
    pub program: Seq<char>,
    /// Its arguments.
    pub args: Seq<Seq<char>>,
    /// The environment variables that are set for it.
    pub envs: Seq<(Seq<char>, Seq<char>)>,
}

impl View for CommandLine {
    type V = CommandView;

    open spec fn view(&self) -> CommandView {
        CommandView {
            program: self.program@,
            args: self.args@.map_values(|s: String| s@),
            envs: self.envs@.map_values(|p: (String, String)| (p.0@, p.1@)),
        }
    }
}

/// What came of running a command.
#[derive(Debug)]
pub enum CommandOutcome {
    /// The program could not be started.
    NotStarted {
        /// Why not.
        error: String,
    },
    /// The program ran to its end.
    Finished {
        /// What it wrote to its standard output.
        stdout: Vec<u8>,
        /// What it wrote to its standard error.
        stderr: Vec<u8>,
        /// Whether it reported success.
        success: bool,
        /// Its exit status as text.
        status: String,
    },
}

/// What a [`CommandOutcome`] says.
#[verifier::ext_equal]
pub enum OutcomeView {
    /// See [`CommandOutcome::NotStarted`].
    NotStarted(Seq<char>),
    /// See [`CommandOutcome::Finished`].
    Finished(Seq<u8>, Seq<u8>, bool, Seq<char>),
}

impl View for CommandOutcome {
    type V = OutcomeView;

    open spec fn view(&self) -> OutcomeView {
        match self {
            CommandOutcome::NotStarted { error } => OutcomeView::NotStarted(error@),
            CommandOutcome::Finished { stdout, stderr, success, status } => OutcomeView::Finished(
                stdout@,
                stderr@,
                *success,
                status@,
            ),
        }
    }
}

/// One stream of output as it is shown: without the whitespace at its end, on
/// lines of its own; nothing if it is blank.
pub open spec fn shown_stream(text: Seq<char>) -> Seq<char> {
    if trim(text).len() > 0 {
        trim_end(text).push('\n')
    } else {
        Seq::empty()
    }
}

/// The output of a command as it is shown.
pub open spec fn shown_output(stdout: Seq<u8>, stderr: Seq<u8>) -> Seq<char> {
    shown_stream(lossy_text(stdout)) + shown_stream(lossy_text(stderr))
}

/// The texts with a space between each two of them.
pub open spec fn joined(args: Seq<Seq<char>>) -> Seq<char>
    decreases args.len(),
{
    if args.len() == 0 {
        Seq::empty()
    } else if args.len() == 1 {
        args[0]
    } else {
        joined(args.drop_last()) + seq![' '] + args.last()
    }
}

/// What running a command gives: its output, or an error.
pub open spec fn command_result(command: CommandView, outcome: OutcomeView) -> Result<
    Seq<char>,
    ErrorView,
> {
    match outcome {
        OutcomeView::NotStarted(error) => Err(
            ErrorView::Internal("执行 "@ + command.program + " 失败: "@ + error),
        ),
        OutcomeView::Finished(stdout, stderr, success, status) => {
            let text = shown_output(stdout, stderr);
            if success {
                Ok(text)
            } else {
                Err(
                    ErrorView::Internal(
                        "命令 "@ + command.program + " "@ + joined(command.args) + " 执行失败（"@
                            + status + "）: "@ + trim(text),
                    ),
                )
            }
        },
    }
}

fn append_stream(out: &mut String, text: &str)
    ensures
        final(out)@ == old(out)@ + shown_stream(text@),
{
    let chars = chars_of(text);
    let ghost start = out@;
    if trim_chars(chars.as_slice()).len() > 0 {
        out.append(string_of(trim_end_chars(chars.as_slice())).as_str());
        out.push('\n');
        assert(out@ =~= start + trim_end(text@).push('\n'));
    } else {
        assert(out@ =~= start + Seq::<char>::empty());
    }
}

/// The text of two streams of output as it is shown.
pub fn join_streams(stdout: &str, stderr: &str) -> (r: String)
    ensures
        r@ == shown_stream(stdout@) + shown_stream(stderr@),
{
    let mut out = String::new();
    append_stream(&mut out, stdout);
    append_stream(&mut out, stderr);
    assert(out@ =~= shown_stream(stdout@) + shown_stream(stderr@));
    out
}

/// The output of a command as it is shown.
pub fn command_output_text(stdout: &[u8], stderr: &[u8]) -> (r: String)
    ensures
        r@ == shown_output(stdout@, stderr@),
{
    let out = text_of_bytes(stdout);
    let err = text_of_bytes(stderr);
    join_streams(out.as_str(), err.as_str())
}

fn join_args(args: &Vec<String>) -> (r: String)
    ensures
        r@ == joined(args@.map_values(|s: String| s@)),
{
    let ghost all = args@.map_values(|s: String| s@);
    let mut out = String::new();
    let mut i: usize = 0;
    while i < args.len()
        invariant
            i <= args.len(),
            all == args@.map_values(|s: String| s@),
            out@ == joined(all.take(i as int)),
        decreases args.len() - i,
    {
        let ghost before_this = out@;
        if i > 0 {
            out.push(' ');
        }
        out.append(args[i].as_str());
        assert(all.take(i + 1).drop_last() =~= all.take(i as int));
        assert(all.take(i + 1).last() == args@[i as int]@);
        if i > 0 {
            assert(out@ =~= before_this + seq![' '] + args@[i as int]@);
        } else {
            assert(out@ =~= args@[0]@);
        }
        i += 1;
    }
    assert(all.take(i as int) =~= all);
    out
}

/// Judges the outcome of a command: its output, or an error that says what
/// failed.
pub fn run_command_with_env(command: &CommandLine, outcome: &CommandOutcome) -> (r: Result<
    String,
    AdminServiceError,
>)
    ensures
        match command_result(command@, outcome@) {
            Ok(text) => r matches Ok(s) && s@ == text,
            Err(e) => r matches Err(f) && f@ == e,
        },
{
    match outcome {
        CommandOutcome::NotStarted { error } => {
            let mut message = "执行 ".to_string();
            message.append(command.program.as_str());
            message.append(" 失败: ");
            message.append(error.as_str());
            Err(AdminServiceError::InternalError(message))
        },
        CommandOutcome::Finished { stdout, stderr, success, status } => {
            let text = command_output_text(stdout.as_slice(), stderr.as_slice());
            if !*success {
                let mut message = "命令 ".to_string();
                message.append(command.program.as_str());
                message.append(" ");
                message.append(join_args(&command.args).as_str());
                message.append(" 执行失败（");
                message.append(status.as_str());
                message.append("）: ");
                message.append(trimmed(text.as_str()).as_str());
                return Err(AdminServiceError::InternalError(message));
            }
            Ok(text)
        },
    }
}

/// A call of the docker client without environment variables.
pub open spec fn docker(args: Seq<Seq<char>>) -> CommandView {
    CommandView { program: "docker"@, args, envs: Seq::empty() }
}

/// Makes a call of the docker client without environment variables.
pub fn run_command(args: Vec<String>) -> (r: CommandLine)
    ensures
        r@ == docker(args@.map_values(|s: String| s@)),
{
    let r = CommandLine { program: "docker".to_string(), args, envs: Vec::new() };
    assert(r@.envs =~= Seq::empty());
    r
}

/// The first line of a text, trimmed.
pub open spec fn first_line(raw: Seq<char>) -> Seq<char> {
    trim(before(raw, '\n'))
}

/// The call that asks docker about the container `hostname`.
pub open spec fn inspect_call(format: Seq<char>, hostname: Seq<char>) -> CommandView {
    docker(seq!["inspect"@, "--format"@, format, hostname])
}

/// The name of the own container, from the environment variable that holds it.
pub open spec fn container_name(hostname: Option<Seq<char>>) -> Result<Seq<char>, ErrorView> {
    match hostname {
        Some(h) if trim(h).len() > 0 => Ok(trim(h)),
        _ => Err(
            ErrorView::Internal("无法获取当前容器 hostname（HOSTNAME 环境变量为空）"@),
        ),
    }
}

/// What asking docker about the own container gives.
pub open spec fn inspect_result(command: CommandView, outcome: OutcomeView) -> Result<
    Seq<char>,
    ErrorView,
> {
    match command_result(command, outcome) {
        Ok(raw) => Ok(first_line(raw)),
        Err(e) => Err(
            ErrorView::Internal(
                "通过 docker inspect 读取容器信息失败："@ + e.message()
                    + "。请确认容器内已安装 docker CLI 并挂载 /var/run/docker.sock。"@,
            ),
        ),
    }
}

/// Makes the call that asks docker about the own container; `hostname` is the
/// value of the environment variable that names it.
pub fn inspect_self_container(format: &str, hostname: &Option<String>) -> (r: Result<
    CommandLine,
    AdminServiceError,
>)
    ensures
        match container_name(crate::text::view_opt(*hostname)) {
            Ok(name) => r matches Ok(c) && c@ == inspect_call(format@, name),
            Err(e) => r matches Err(f) && f@ == e,
        },
{
    let name = match hostname {
        Some(h) => trimmed(h.as_str()),
        None => String::new(),
    };
    if name.as_str().is_empty() {
        return Err(
            AdminServiceError::InternalError(
                "无法获取当前容器 hostname（HOSTNAME 环境变量为空）".to_string(),
            ),
        );
    }
    let args = vec!["inspect".to_string(), "--format".to_string(), format.to_string(), name];
    let r = run_command(args);
    assert(r@.args =~= seq!["inspect"@, "--format"@, format@, name@]);
    Ok(r)
}

/// Judges what docker said about the own container.
pub fn inspected(command: &CommandLine, outcome: &CommandOutcome) -> (r: Result<
    String,
    AdminServiceError,
>)
    ensures
        match inspect_result(command@, outcome@) {
            Ok(text) => r matches Ok(s) && s@ == text,
            Err(e) => r matches Err(f) && f@ == e,
        },
{
    match run_command_with_env(command, outcome) {
        Ok(raw) => {
            let chars = chars_of(raw.as_str());
            Ok(string_of(trim_chars(chars_before(chars.as_slice(), '\n'))))
        },
        Err(e) => {
            let mut message = "通过 docker inspect 读取容器信息失败：".to_string();
            message.append(e.message().as_str());
            message.append("。请确认容器内已安装 docker CLI 并挂载 /var/run/docker.sock。");
            Err(AdminServiceError::InternalError(message))
        },
    }
}

/// The output of a command ends in a line break or is empty, and is empty
/// exactly if both streams are blank.
pub proof fn shown_output_is_whole_lines(stdout: Seq<u8>, stderr: Seq<u8>)
    ensures
        ({
            let text = shown_output(stdout, stderr);
            &&& text.len() > 0 ==> text.last() == '\n'
            &&& text.len() == 0 <==> trim(lossy_text(stdout)).len() == 0 && trim(
                lossy_text(stderr),
            ).len() == 0
        }),
{
}

/// A plain call of docker runs `docker` with the arguments as they are, and sets
/// no environment variables.
pub proof fn docker_is_called_as_asked(args: Vec<String>, r: CommandLine)
    requires
        call_ensures(run_command, (args,), r),
    ensures
        r.program@ == "docker"@,
        views(r.args@) == views(args@),
        r.envs@.len() == 0,
{
    assert(views(r.args@) =~= r@.args);
    assert(r@.envs.len() == 0);
}

/// A command is judged by the success that it reports, not by what it writes. What
/// it wrote is kept, its standard output first; a failure says which command it was,
/// with its arguments, and what it wrote.
pub proof fn commands_are_judged_by_their_success(
    command: CommandLine,
    outcome: CommandOutcome,
    r: Result<String, AdminServiceError>,
)
    requires
        call_ensures(run_command_with_env, (&command, &outcome), r),
    ensures
        r is Ok <==> (outcome matches CommandOutcome::Finished { success, .. } && success),
        r matches Err(e) ==> e@.status() == 500,
        outcome matches CommandOutcome::NotStarted { error } ==> (r matches Err(e) && e@
            == ErrorView::Internal("执行 "@ + command.program@ + " 失败: "@ + error@)),
        outcome matches CommandOutcome::Finished { stdout, stderr, success, status } ==> {
            let text = shown_stream(lossy_text(stdout@)) + shown_stream(lossy_text(stderr@));
            &&& r matches Ok(s) ==> s@ == text
            &&& r matches Err(e) ==> e@ == ErrorView::Internal(
                "命令 "@ + command.program@ + " "@ + joined(views(command.args@)) + " 执行失败（"@
                    + status@ + "）: "@ + trim(text),
            )
        },
{
    assert(views(command.args@) =~= command@.args);
}

/// A stream is shown without the blank at its end, with a line break in its place;
/// a blank one is not shown.
pub proof fn streams_are_shown_without_their_end(text: Seq<char>, blank: Seq<char>)
    requires
        is_blank(blank),
        text.len() > 0 ==> !is_whitespace(text.last()),
        is_blank(text) ==> text.len() == 0,
    ensures
        text.len() > 0 ==> shown_stream(text + blank) == text.push('\n'),
        text.len() == 0 ==> shown_stream(text + blank) == Seq::<char>::empty(),
{
    let s = text + blank;
    let (a, b) = trimming_takes_only_blanks(s);
    if text.len() > 0 {
        if trim(s).len() == 0 {
            assert forall|i: int| 0 <= i < text.len() implies is_whitespace(#[trigger] text[i]) by {
                assert(s[i] == text[i]);
                if i < a.len() {
                    assert(s[i] == a[i]);
                } else {
                    assert(s[i] == b[i - a.len()]);
                }
            }
            assert(false);
        }
        ends_before_the_blank(text, blank);
    } else {
        assert(s =~= blank);
        assert(blank + Seq::<char>::empty() + Seq::<char>::empty() =~= blank);
        trimming_takes_the_blanks(blank, Seq::empty(), Seq::empty());
    }
}

proof fn ends_before_the_blank(text: Seq<char>, blank: Seq<char>)
    requires
        is_blank(blank),
        text.len() > 0,
        !is_whitespace(text.last()),
    ensures
        trim_end(text + blank) == text,
    decreases blank.len(),
{
    let s = text + blank;
    if blank.len() > 0 {
        assert(s.last() == blank.last());
        assert(s.drop_last() =~= text + blank.drop_last());
        ends_before_the_blank(text, blank.drop_last());
    } else {
        assert(s =~= text);
    }
}

/// Arguments are shown one after the other with a space between them.
pub proof fn arguments_are_shown_in_order(args: Seq<Seq<char>>, arg: Seq<char>)
    ensures
        joined(seq![arg]) == arg,
        args.len() > 0 ==> joined(args.push(arg)) == joined(args) + seq![' '] + arg,
{
    assert(args.push(arg).drop_last() =~= args);
}

/// The own container is asked about by its name without blanks around it; without
/// a name it cannot be asked about.
pub proof fn the_own_container_is_asked_about(
    format: &str,
    hostname: Option<String>,
    r: Result<CommandLine, AdminServiceError>,
)
    requires
        call_ensures(inspect_self_container, (format, &hostname), r),
    ensures
        hostname is None || trim(hostname.unwrap()@).len() == 0 ==> (r matches Err(e) && e@
            == ErrorView::Internal("无法获取当前容器 hostname（HOSTNAME 环境变量为空）"@)),
        hostname matches Some(h) ==> trim(h@).len() > 0 ==> (r matches Ok(command) && {
            &&& command.program@ == "docker"@
            &&& views(command.args@) == seq!["inspect"@, "--format"@, format@, trim(h@)]
            &&& command.envs@.len() == 0
        }),
{
    if let Ok(command) = r {
        assert(views(command.args@) =~= command@.args);
        assert(command@.envs.len() == 0);
    }
}

/// Of what docker says about the own container the first line counts, without
/// blanks around it.
pub proof fn the_first_line_counts(
    command: CommandLine,
    outcome: CommandOutcome,
    line: Seq<char>,
    rest: Seq<char>,
    r: Result<String, AdminServiceError>,
)
    requires
        call_ensures(inspected, (&command, &outcome), r),
        outcome matches CommandOutcome::Finished { stdout, stderr, success, .. } ==> shown_stream(
            lossy_text(stdout@),
        ) + shown_stream(lossy_text(stderr@)) == line + seq!['\n'] + rest,
        !line.contains('\n'),
    ensures
        r is Ok <==> (outcome matches CommandOutcome::Finished { success, .. } && success),
        r matches Ok(s) ==> s@ == trim(line),
        r matches Err(e) ==> e@.status() == 500,
{
    parts_around(line, '\n', rest);
}

} // verus!
