//! What the command line asks for, and in which order it is done.
use vstd::prelude::*;

verus! {

/// The options given on the command line. A flag that is not given reads
/// as `Some(false)`; `None` where the option is not known at all.
#[derive(Debug)]
pub struct CliArgs {
    /// `--sign_in <Username>`: talk to the user's chatbot in the terminal.
    pub sign_in: Option<String>,
    /// `--test`: run the database check.
    pub test: Option<bool>,
    /// `--gui`: open the chat window.
    pub gui: Option<bool>,
    /// `--test_tts`: transcribe the last recording.
    pub test_tts: Option<bool>,
}

/// One thing the program was asked to do.
#[derive(Debug)]
pub enum CliCommand {
    Chat(String),
    DatabaseTest,
    Gui,
    SpeechTest,
}

/// A command as plain values.
pub enum CliCommandModel {
    Chat(Seq<char>),
    DatabaseTest,
    Gui,
    SpeechTest,
}

impl View for CliCommand {
    type V = CliCommandModel;

    open spec fn view(&self) -> CliCommandModel {
        match self {
            CliCommand::Chat(u) => CliCommandModel::Chat(u@),
            CliCommand::DatabaseTest => CliCommandModel::DatabaseTest,
            CliCommand::Gui => CliCommandModel::Gui,
            CliCommand::SpeechTest => CliCommandModel::SpeechTest,
        }
    }
}

/// The commands that the options ask for, in the order they are done:
/// the terminal chat, the database check, the window, the transcription.
pub open spec fn planned_commands(
    sign_in: Option<Seq<char>>,
    test: Option<bool>,
    gui: Option<bool>,
    test_tts: Option<bool>,
) -> Seq<CliCommandModel> {
    let chat = match sign_in {
        Some(u) => seq![CliCommandModel::Chat(u)],
        None => Seq::empty(),
    };
    let database = if test == Some(true) {
        seq![CliCommandModel::DatabaseTest]
    } else {
        Seq::empty()
    };
    let window = if gui == Some(true) {
        seq![CliCommandModel::Gui]
    } else {
        Seq::empty()
    };
    let speech = if test_tts == Some(true) {
        seq![CliCommandModel::SpeechTest]
    } else {
        Seq::empty()
    };
    chat + database + window + speech
}

/// Each option asks for its own command and no other: the chat with the
/// signed-in name exactly when a name is given, the database check exactly
/// when `--test` is set, the window exactly when `--gui` is set, the
/// transcription exactly when `--test_tts` is set; each at most once, the
/// chat first and the transcription last.
pub proof fn lemma_each_option_asks_for_its_command(
    sign_in: Option<Seq<char>>,
    test: Option<bool>,
    gui: Option<bool>,
    test_tts: Option<bool>,
)
    ensures
        ({
            let p = planned_commands(sign_in, test, gui, test_tts);
            &&& (forall|u: Seq<char>| p.contains(CliCommandModel::Chat(u)) <==> sign_in == Some(u))
            &&& p.contains(CliCommandModel::DatabaseTest) <==> test == Some(true)
            &&& p.contains(CliCommandModel::Gui) <==> gui == Some(true)
            &&& p.contains(CliCommandModel::SpeechTest) <==> test_tts == Some(true)
            &&& p.len() == (if sign_in is Some { 1int } else { 0 }) + (if test == Some(true) {
                1int
            } else {
                0
            }) + (if gui == Some(true) { 1int } else { 0 }) + (if test_tts == Some(true) {
                1int
            } else {
                0
            })
            &&& sign_in matches Some(u) ==> p[0] == CliCommandModel::Chat(u)
            &&& test_tts == Some(true) ==> p.last() == CliCommandModel::SpeechTest
        }),
{
    let p = planned_commands(sign_in, test, gui, test_tts);
    let chat = match sign_in {
        Some(u) => seq![CliCommandModel::Chat(u)],
        None => Seq::<CliCommandModel>::empty(),
    };
    let database = if test == Some(true) {
        seq![CliCommandModel::DatabaseTest]
    } else {
        Seq::<CliCommandModel>::empty()
    };
    let window = if gui == Some(true) {
        seq![CliCommandModel::Gui]
    } else {
        Seq::<CliCommandModel>::empty()
    };
    let speech = if test_tts == Some(true) {
        seq![CliCommandModel::SpeechTest]
    } else {
        Seq::<CliCommandModel>::empty()
    };
    assert(p == chat + database + window + speech);
    assert forall|c: CliCommandModel| p.contains(c) <==> (chat.contains(c) || database.contains(c)
        || window.contains(c) || speech.contains(c)) by {
        if p.contains(c) {
            let i = choose|i: int| 0 <= i < p.len() && p[i] == c;
            if i < chat.len() {
                assert(chat[i] == c);
            } else if i < chat.len() + database.len() {
                assert(database[i - chat.len()] == c);
            } else if i < chat.len() + database.len() + window.len() {
                assert(window[i - chat.len() - database.len()] == c);
            } else {
                assert(speech[i - chat.len() - database.len() - window.len()] == c);
            }
        }
        if chat.contains(c) {
            assert(p[0] == c);
        }
        if database.contains(c) {
            assert(p[chat.len() as int] == c);
        }
        if window.contains(c) {
            assert(p[(chat.len() + database.len()) as int] == c);
        }
        if speech.contains(c) {
            assert(p[(chat.len() + database.len() + window.len()) as int] == c);
        }
    }
    assert forall|u: Seq<char>| p.contains(CliCommandModel::Chat(u)) <==> sign_in == Some(u) by {
        if sign_in == Some(u) {
            assert(chat.contains(CliCommandModel::Chat(u)));
        }
        if chat.contains(CliCommandModel::Chat(u)) {
            assert(chat[0] == CliCommandModel::Chat(u));
        }
    }
    if test == Some(true) {
        assert(database.contains(CliCommandModel::DatabaseTest));
    }
    if gui == Some(true) {
        assert(window.contains(CliCommandModel::Gui));
    }
    if test_tts == Some(true) {
        assert(speech.contains(CliCommandModel::SpeechTest));
    }
    if database.contains(CliCommandModel::DatabaseTest) {
        assert(database[0] == CliCommandModel::DatabaseTest);
    }
    if window.contains(CliCommandModel::Gui) {
        assert(window[0] == CliCommandModel::Gui);
    }
    if speech.contains(CliCommandModel::SpeechTest) {
        assert(speech[0] == CliCommandModel::SpeechTest);
    }
}

/// The views of a list of commands.
pub open spec fn commands_view(commands: Seq<CliCommand>) -> Seq<CliCommandModel> {
    commands.map_values(|c: CliCommand| c@)
}

/// The view of a name that may be missing.
pub open spec fn name_view(name: Option<String>) -> Option<Seq<char>> {
    match name {
        Some(u) => Some(u@),
        None => None,
    }
}

/// Appends `c` to `commands`.
fn push_command(commands: &mut Vec<CliCommand>, c: CliCommand)
    ensures
        commands_view(final(commands)@) == commands_view(old(commands)@).push(c@),
{
    let ghost before = commands@;
    commands.push(c);
    assert(commands_view(final(commands)@) =~= commands_view(before).push(c@));
}

/// The commands that `args` ask for, in the order in which they are done.
pub fn run_args(args: CliArgs) -> (commands: Vec<CliCommand>)
    ensures
        commands_view(commands@) == planned_commands(
            name_view(args.sign_in),
            args.test,
            args.gui,
            args.test_tts,
        ),
{
    let ghost plan = planned_commands(name_view(args.sign_in), args.test, args.gui, args.test_tts);
    let mut commands: Vec<CliCommand> = Vec::new();
    assert(commands_view(commands@) =~= Seq::<CliCommandModel>::empty());
    match args.sign_in {
        Some(user) => push_command(&mut commands, CliCommand::Chat(user)),
        None => {},
    }
    match args.test {
        Some(true) => push_command(&mut commands, CliCommand::DatabaseTest),
        _ => {},
    }
    match args.gui {
        Some(true) => push_command(&mut commands, CliCommand::Gui),
        _ => {},
    }
    match args.test_tts {
        Some(true) => push_command(&mut commands, CliCommand::SpeechTest),
        _ => {},
    }
    assert(commands_view(commands@) =~= plan);
    commands
}

} // verus!
