//! Planning the spawn of the wrapped command: which program, which
//! arguments, and the name of the log file that takes its output.

use vstd::prelude::*;
use vstd::string::StringExecFns;

verus! {

/// The pattern of the time stamp in a log file's name: year, month and day,
/// an underscore, then hour, minute and second, all joined by hyphens.
pub open spec fn timestamp_pattern() -> Seq<char> {
    "%Y-%m-%d_%H-%M-%S"@
}

/// The name of the log file of a run: the program's name, an underscore, the
/// time stamp, and the extension `.log`.
pub open spec fn log_file_name_of(program: Seq<char>, timestamp: Seq<char>) -> Seq<char> {
    program + "_"@ + timestamp + ".log"@
}

/// The words of a command joined by single spaces.
pub open spec fn command_line_of(words: Seq<Seq<char>>) -> Seq<char>
    decreases words.len(),
{
    if words.len() == 0 {
        Seq::empty()
    } else if words.len() == 1 {
        words[0]
    } else {
        command_line_of(words.drop_last()) + " "@ + words.last()
    }
}

/// What the host needs to start the wrapped command.
#[derive(Debug, Clone, PartialEq, Eq)]
pub struct SpawnPlan {
    /// The program to run: the first word of the command.
    pub program: String,
    /// The arguments: the words after the first, in order.
    pub args: Vec<String>,
    /// The name of the file, inside the directory of the logs, that takes
    /// the standard output and the standard error of the child process.
    pub log_file: String,
}

/// The mathematical content of a [`SpawnPlan`].
pub struct SpawnPlanView {
    pub program: Seq<char>,
    pub args: Seq<Seq<char>>,
    pub log_file: Seq<char>,
}

impl View for SpawnPlan {
    type V = SpawnPlanView;

    open spec fn view(&self) -> SpawnPlanView {
        SpawnPlanView {
            program: self.program@,
            args: self.args.deep_view(),
            log_file: self.log_file@,
        }
    }
}

/// The plan for a non-empty command started at the given time stamp.
pub open spec fn plan_of(words: Seq<Seq<char>>, timestamp: Seq<char>) -> SpawnPlanView {
    SpawnPlanView {
        program: words[0],
        args: words.subrange(1, words.len() as int),
        log_file: log_file_name_of(words[0], timestamp),
    }
}

/// Formats the current local time with `chrono::Local::now` and
/// `DateTime::format`. The text depends on the clock and on the time zone
/// of the machine, so nothing is claimed of it. A pattern with an item that
/// `chrono` does not know makes `to_string` panic; the one pattern that is
/// let in holds none. Whatever the pattern, `chrono` panics in `Utc::now` if
/// the clock of the machine stands before 1970.
#[verifier::external_body]
fn local_time_text(pattern: &str) -> String
    requires
        pattern@ == timestamp_pattern(),
{
    chrono::Local::now().format(pattern).to_string()
}

/// The name of the log file of a run of `program` started at `timestamp`.
pub fn log_file_name(program: &str, timestamp: &str) -> (name: String)
    ensures
        name@ == log_file_name_of(program@, timestamp@),
{
    let mut name = program.to_owned();
    name.append("_");
    name.append(timestamp);
    name.append(".log");
    name
}

/// The command as one line, its words joined by single spaces.
pub fn command_line(cmd: &Vec<String>) -> (line: String)
    ensures
        line@ == command_line_of(cmd.deep_view()),
{
    let mut line = String::new();
    let mut i: usize = 0;
    while i < cmd.len()
        invariant
            i <= cmd.len(),
            line@ == command_line_of(cmd.deep_view().take(i as int)),
        decreases cmd.len() - i,
    {
        let ghost before = cmd.deep_view().take(i as int);
        let ghost after = cmd.deep_view().take(i + 1);
        proof {
            assert(after.drop_last() =~= before);
            assert(after.last() == cmd[i as int]@);
        }
        if i > 0 {
            line.append(" ");
        } else {
            assert(before.len() == 0);
            assert(line@ =~= Seq::<char>::empty());
        }
        line.append(cmd[i].as_str());
        proof {
            if i == 0 {
                assert(line@ =~= cmd[0]@);
            }
        }
        i += 1;
    }
    assert(cmd.deep_view().take(cmd.len() as int) =~= cmd.deep_view());
    line
}

impl SpawnPlan {
    /// Plans the spawn of `cmd` for a run that starts at `timestamp`.
    pub fn new(cmd: &Vec<String>, timestamp: &str) -> (plan: SpawnPlan)
        requires
            cmd.len() > 0,
        ensures
            plan@ == plan_of(cmd.deep_view(), timestamp@),
    {
        let program = cmd[0].clone();
        let mut args: Vec<String> = Vec::new();
        let mut i: usize = 1;
        while i < cmd.len()
            invariant
                1 <= i <= cmd.len(),
                args.deep_view() == cmd.deep_view().subrange(1, i as int),
            decreases cmd.len() - i,
        {
            let ghost before = args.deep_view();
            args.push(cmd[i].clone());
            proof {
                assert(args.deep_view() =~= before.push(cmd[i as int]@));
                assert(cmd.deep_view().subrange(1, i + 1) =~= cmd.deep_view().subrange(
                    1,
                    i as int,
                ).push(cmd[i as int]@));
            }
            i += 1;
        }
        let log_file = log_file_name(program.as_str(), timestamp);
        SpawnPlan { program, args, log_file }
    }

    /// Plans the spawn of `cmd` for a run that starts now: the time stamp is
    /// the local time of the machine, as `chrono` formats it. What the time
    /// stamp reads depends on the clock, so the plan is stated up to it.
    ///
    /// # Panics
    ///
    /// `chrono` panics if the clock of the machine stands before 1970.
    pub fn at_local_time(cmd: &Vec<String>) -> (plan: SpawnPlan)
        requires
            cmd.len() > 0,
        ensures
            exists|timestamp: Seq<char>| plan@ == #[trigger] plan_of(cmd.deep_view(), timestamp),
    {
        let timestamp = local_time_text("%Y-%m-%d_%H-%M-%S");
        let plan = SpawnPlan::new(cmd, timestamp.as_str());
        assert(plan@ == plan_of(cmd.deep_view(), timestamp@));
        plan
    }
}

/// A plan keeps the whole command: the program followed by the arguments
/// is the command again, word for word.
pub proof fn plan_keeps_the_command(words: Seq<Seq<char>>, timestamp: Seq<char>)
    requires
        words.len() > 0,
    ensures
        seq![plan_of(words, timestamp).program] + plan_of(words, timestamp).args == words,
{
    assert(seq![plan_of(words, timestamp).program] + plan_of(words, timestamp).args =~= words);
}

/// A command of two or more words is its first words, a space, and its last
/// word; the line of one word is the word, and of no word the empty line.
pub proof fn command_line_grows_by_words(words: Seq<Seq<char>>, word: Seq<char>)
    ensures
        command_line_of(Seq::empty()) == Seq::<char>::empty(),
        command_line_of(seq![word]) == word,
        words.len() > 0 ==> command_line_of(words.push(word)) == command_line_of(words) + " "@
            + word,
{
    assert(words.push(word).drop_last() =~= words);
}

} // verus!
