//! The state of the chat window and how each event of the window changes it.
//! What an event asks of the outside world (the chat model, the microphone,
//! the speaker, the settings file) comes back as an `Effect` for the window
//! to carry out.
use vstd::prelude::*;
use vstd::string::*;

use crate::conversation::{copy_history, displayed_answer, history_view, shown_answer, ChatMessage, ChatMessageView};
use crate::settings::{font_family, FontFamily, Fonts, Settings, ThemeChoice, Voices};
use crate::text::{decimal, push_decimal};

verus! {

/// The chat window.
pub struct Chat {
    /// The name of the user who signed in, if one did.
    pub user: Option<String>,
    /// The name typed into the sign-in field.
    pub user_text: String,
    /// The conversation with the model, as created at sign-in.
    pub bot: Vec<ChatMessage>,
    /// The text typed into the message field.
    pub content: String,
    /// The lines shown in the conversation pane.
    pub logs: Vec<String>,
    pub settings: Settings,
    /// Whether the side bar is folded.
    pub side_bar: bool,
    /// Seconds that a recording lasts.
    pub recording_time: u64,
    /// Whether a recording is under way, and the seconds shown for it.
    pub recording: bool,
    pub recording_secs: u64,
}

/// The chat window as plain values.
pub struct ChatModel {
    pub user: Option<Seq<char>>,
    pub user_text: Seq<char>,
    pub bot: Seq<ChatMessageView>,
    pub content: Seq<char>,
    pub logs: Seq<Seq<char>>,
    pub settings: Settings,
    pub side_bar: bool,
    pub recording_time: u64,
    pub recording: bool,
    pub recording_secs: u64,
}

/// The views of a list of strings.
pub open spec fn lines_view(lines: Seq<String>) -> Seq<Seq<char>> {
    lines.map_values(|s: String| s@)
}

impl View for Chat {
    type V = ChatModel;

    open spec fn view(&self) -> ChatModel {
        ChatModel {
            user: match self.user {
                Some(u) => Some(u@),
                None => None,
            },
            user_text: self.user_text@,
            bot: history_view(self.bot@),
            content: self.content@,
            logs: lines_view(self.logs@),
            settings: self.settings,
            side_bar: self.side_bar,
            recording_time: self.recording_time,
            recording: self.recording,
            recording_secs: self.recording_secs,
        }
    }
}

/// An event of the chat window.
pub enum Message {
    TextChanged(String),
    TextAdded,
    UserChanged(String),
    UserAdded,
    /// The conversation created for the user who signed in.
    BotCreated(Vec<ChatMessage>),
    UserLogOut,
    ThemeChanged(ThemeChoice),
    VoiceChanged(Voices),
    TextFontChanged(Fonts),
    BotResponse(String),
    BotVoice,
    RecordingTimeChanged(u64),
    StartMic,
    Tick,
    /// What the recording was transcribed to, and whether the recording's
    /// file exists.
    Transcribed(String, bool),
    SideBarChanged,
    SettingsSaved,
}

/// An event as plain values.
pub enum MessageModel {
    TextChanged(Seq<char>),
    TextAdded,
    UserChanged(Seq<char>),
    UserAdded,
    BotCreated(Seq<ChatMessageView>),
    UserLogOut,
    ThemeChanged(ThemeChoice),
    VoiceChanged(Voices),
    TextFontChanged(Fonts),
    BotResponse(Seq<char>),
    BotVoice,
    RecordingTimeChanged(u64),
    StartMic,
    Tick,
    Transcribed(Seq<char>, bool),
    SideBarChanged,
    SettingsSaved,
}

impl View for Message {
    type V = MessageModel;

    open spec fn view(&self) -> MessageModel {
        match self {
            Message::TextChanged(c) => MessageModel::TextChanged(c@),
            Message::TextAdded => MessageModel::TextAdded,
            Message::UserChanged(c) => MessageModel::UserChanged(c@),
            Message::UserAdded => MessageModel::UserAdded,
            Message::BotCreated(b) => MessageModel::BotCreated(history_view(b@)),
            Message::UserLogOut => MessageModel::UserLogOut,
            Message::ThemeChanged(t) => MessageModel::ThemeChanged(*t),
            Message::VoiceChanged(v) => MessageModel::VoiceChanged(*v),
            Message::TextFontChanged(f) => MessageModel::TextFontChanged(*f),
            Message::BotResponse(r) => MessageModel::BotResponse(r@),
            Message::BotVoice => MessageModel::BotVoice,
            Message::RecordingTimeChanged(t) => MessageModel::RecordingTimeChanged(*t),
            Message::StartMic => MessageModel::StartMic,
            Message::Tick => MessageModel::Tick,
            Message::Transcribed(t, e) => MessageModel::Transcribed(t@, *e),
            Message::SideBarChanged => MessageModel::SideBarChanged,
            Message::SettingsSaved => MessageModel::SettingsSaved,
        }
    }
}

/// What the window is asked to do after an event.
pub enum Effect {
    Nothing,
    /// Send `content` in the conversation `bot` for the user `user_text`,
    /// and hand the answer back as `Message::BotResponse`.
    FetchBotResponse { bot: Vec<ChatMessage>, content: String, user_text: String },
    /// Create the conversation for the user, and hand it back as
    /// `Message::BotCreated`.
    CreateBot(String),
    /// Read `line` aloud with `voice`, then send `Message::BotVoice`.
    PlayBotVoice { line: String, voice: Voices },
    /// Print the recording warning, then send `Message::Tick`.
    AddWarning,
    /// Record that many seconds, transcribe the recording, and hand the
    /// text back as `Message::Transcribed`.
    RecordAndTranscribe(u64),
    /// Write the settings to the settings file.
    SaveSettings(Settings),
}

/// An effect as plain values.
pub enum EffectModel {
    Nothing,
    FetchBotResponse { bot: Seq<ChatMessageView>, content: Seq<char>, user_text: Seq<char> },
    CreateBot(Seq<char>),
    PlayBotVoice { line: Seq<char>, voice: Voices },
    AddWarning,
    RecordAndTranscribe(u64),
    SaveSettings(Settings),
}

impl View for Effect {
    type V = EffectModel;

    open spec fn view(&self) -> EffectModel {
        match self {
            Effect::Nothing => EffectModel::Nothing,
            Effect::FetchBotResponse { bot, content, user_text } => EffectModel::FetchBotResponse {
                bot: history_view(bot@),
                content: content@,
                user_text: user_text@,
            },
            Effect::CreateBot(u) => EffectModel::CreateBot(u@),
            Effect::PlayBotVoice { line, voice } => EffectModel::PlayBotVoice {
                line: line@,
                voice: *voice,
            },
            Effect::AddWarning => EffectModel::AddWarning,
            Effect::RecordAndTranscribe(t) => EffectModel::RecordAndTranscribe(*t),
            Effect::SaveSettings(s) => EffectModel::SaveSettings(*s),
        }
    }
}

/// What the window shows.
#[derive(Clone, Copy, Debug, PartialEq, Eq, Structural)]
pub enum Screen {
    /// The notice that a recording is under way.
    Recording,
    /// The sign-in box.
    Login,
    /// The side bar and the conversation.
    Conversation,
}

/// What the window shows in the state `s`: the recording notice while
/// recording, else the sign-in box until a user signed in.
pub open spec fn screen_of(s: ChatModel) -> Screen {
    if s.recording {
        Screen::Recording
    } else if s.user is None {
        Screen::Login
    } else {
        Screen::Conversation
    }
}

/// How a line of the conversation pane is drawn.
#[derive(Clone, Copy, Debug, PartialEq, Eq, Structural)]
pub enum Bubble {
    /// The welcome banner above the lines (position -1).
    Banner,
    /// A bubble on the left, for lines at even positions.
    Left,
    /// A bubble on the right, for lines at odd positions.
    Right,
}

/// How the line at position `pos` is drawn: position -1 is the banner,
/// then lines alternate left and right, even positions on the left.
pub fn bubble_for(pos: i64) -> (b: Bubble)
    ensures
        pos == -1 ==> b == Bubble::Banner,
        pos != -1 && pos % 2 == 0 ==> b == Bubble::Left,
        pos != -1 && pos % 2 != 0 ==> b == Bubble::Right,
{
    if pos == -1 {
        Bubble::Banner
    } else if pos % 2 == 0 {
        Bubble::Left
    } else {
        Bubble::Right
    }
}

/// The line logged for what the user said.
pub open spec fn user_line(user: Seq<char>, text: Seq<char>) -> Seq<char> {
    user + ": "@ + text + "\n"@
}

/// The line logged for what the assistant said.
pub open spec fn assistant_line(text: Seq<char>) -> Seq<char> {
    "Assistant: "@ + text + "\n"@
}

/// The greeting logged when a user signs in.
pub open spec fn welcome_line(user: Seq<char>) -> Seq<char> {
    "Welcome to the Chatbot Experience, "@ + user
        + "! Say Hi to Your AI Assistant\n (Notice: AI Voices Are Generated and Not Real Humans)"@
}

/// The farewell logged when a user signs out.
pub open spec fn goodbye_line() -> Seq<char> {
    "Goodbye!"@
}

/// The line logged when a user signs out.
pub open spec fn logged_out_line(user: Seq<char>) -> Seq<char> {
    "User: "@ + user + " has logged out"@
}

/// The line logged when the microphone starts.
pub open spec fn mic_line() -> Seq<char> {
    "Starting Mic"@
}

/// The line that tells the user how long they may speak.
pub open spec fn recording_line(seconds: u64) -> Seq<char> {
    "Assistant: Now Recording - You Have "@ + decimal(seconds as nat) + " seconds to speak"@
}

/// Seconds shown for a recording when none is under way.
pub const IDLE_RECORDING_SECS: u64 = 10;

/// Which events the window can take in the state `s`: a message is sent
/// only by a signed-in user, and an answer of the model starts with the
/// fifteen bytes of its marker.
pub open spec fn accepts(s: ChatModel, m: MessageModel) -> bool {
    match m {
        MessageModel::TextAdded => s.content.len() > 0 ==> s.user is Some,
        MessageModel::Transcribed(_, exists) => exists ==> s.user is Some,
        MessageModel::BotResponse(r) => shown_answer(r) is Some,
        _ => true,
    }
}

/// The state after an event, and what it asks of the window.
pub open spec fn step(s: ChatModel, m: MessageModel) -> (ChatModel, EffectModel) {
    match m {
        MessageModel::TextChanged(c) => (ChatModel { content: c, ..s }, EffectModel::Nothing),
        MessageModel::TextAdded => if s.content.len() > 0 {
            (
                ChatModel {
                    logs: s.logs.push(user_line(s.user->Some_0, s.content)),
                    content: Seq::empty(),
                    ..s
                },
                EffectModel::FetchBotResponse {
                    bot: s.bot,
                    content: s.content,
                    user_text: s.user_text,
                },
            )
        } else {
            (ChatModel { content: Seq::empty(), ..s }, EffectModel::Nothing)
        },
        MessageModel::UserChanged(c) => (ChatModel { user_text: c, ..s }, EffectModel::Nothing),
        MessageModel::UserAdded => (
            ChatModel {
                user: Some(s.user_text),
                logs: s.logs.push(welcome_line(s.user_text)),
                ..s
            },
            EffectModel::CreateBot(s.user_text),
        ),
        MessageModel::BotCreated(b) => (ChatModel { bot: b, ..s }, EffectModel::Nothing),
        MessageModel::UserLogOut => (
            ChatModel {
                logs: seq![goodbye_line(), logged_out_line(s.user_text)],
                user: None,
                content: Seq::empty(),
                user_text: Seq::empty(),
                ..s
            },
            EffectModel::Nothing,
        ),
        MessageModel::ThemeChanged(t) => (
            ChatModel { settings: Settings { theme: t, ..s.settings }, ..s },
            EffectModel::Nothing,
        ),
        MessageModel::VoiceChanged(v) => (
            ChatModel { settings: Settings { voice: v, ..s.settings }, ..s },
            EffectModel::Nothing,
        ),
        MessageModel::TextFontChanged(f) => (
            ChatModel {
                settings: Settings { text_font: f, text_family: font_family(f), ..s.settings },
                ..s
            },
            EffectModel::Nothing,
        ),
        MessageModel::BotResponse(r) => {
            let line = shown_answer(r)->Some_0;
            (
                ChatModel {
                    recording: false,
                    recording_secs: IDLE_RECORDING_SECS,
                    logs: s.logs.push(assistant_line(line)),
                    content: Seq::empty(),
                    ..s
                },
                EffectModel::PlayBotVoice { line: line, voice: s.settings.voice },
            )
        },
        MessageModel::BotVoice => (s, EffectModel::Nothing),
        MessageModel::RecordingTimeChanged(t) => (
            ChatModel { recording_time: t, ..s },
            EffectModel::Nothing,
        ),
        MessageModel::StartMic => (
            ChatModel {
                logs: s.logs.push(mic_line()).push(recording_line(s.recording_time)),
                ..s
            },
            EffectModel::AddWarning,
        ),
        MessageModel::Tick => (s, EffectModel::RecordAndTranscribe(s.recording_time)),
        MessageModel::Transcribed(text, exists) => if exists {
            (
                ChatModel {
                    logs: s.logs.push(user_line(s.user->Some_0, text)),
                    content: Seq::empty(),
                    ..s
                },
                EffectModel::FetchBotResponse { bot: s.bot, content: text, user_text: s.user_text },
            )
        } else {
            (s, EffectModel::Nothing)
        },
        MessageModel::SideBarChanged => (ChatModel { side_bar: !s.side_bar, ..s }, EffectModel::Nothing),
        MessageModel::SettingsSaved => (s, EffectModel::SaveSettings(s.settings)),
    }
}

/// `a` followed by `b` and `c`.
fn concat3(a: &str, b: &str, c: &str) -> (r: String)
    ensures
        r@ == a@ + b@ + c@,
{
    let mut r = a.to_owned();
    r.append(b);
    r.append(c);
    r
}

/// `a`, `b`, `c` and `d` one after another.
fn concat4(a: &str, b: &str, c: &str, d: &str) -> (r: String)
    ensures
        r@ == a@ + b@ + c@ + d@,
{
    let mut r = concat3(a, b, c);
    r.append(d);
    r
}

/// Appends `line` to `logs`.
fn push_line(logs: &mut Vec<String>, line: String)
    ensures
        lines_view(final(logs)@) == lines_view(old(logs)@).push(line@),
{
    let ghost before = logs@;
    logs.push(line);
    assert(lines_view(final(logs)@) =~= lines_view(before).push(line@));
}

/// The line that tells the user how long they may speak.
fn recording_notice(seconds: u64) -> (r: String)
    ensures
        r@ == recording_line(seconds),
{
    let mut r = "Assistant: Now Recording - You Have ".to_owned();
    push_decimal(&mut r, seconds);
    r.append(" seconds to speak");
    r
}

impl Chat {
    /// A window with nobody signed in and the given settings.
    pub fn new(settings: Settings) -> (c: Chat)
        ensures
            c@ == (ChatModel {
                user: None,
                user_text: Seq::empty(),
                bot: Seq::empty(),
                content: Seq::empty(),
                logs: Seq::empty(),
                settings: settings,
                side_bar: true,
                recording_time: 10,
                recording: false,
                recording_secs: IDLE_RECORDING_SECS,
            }),
    {
        let c = Chat {
            user: None,
            user_text: String::new(),
            bot: Vec::new(),
            content: String::new(),
            logs: Vec::new(),
            settings,
            side_bar: true,
            recording_time: 10,
            recording: false,
            recording_secs: IDLE_RECORDING_SECS,
        };
        assert(history_view(c.bot@) =~= Seq::<ChatMessageView>::empty());
        assert(lines_view(c.logs@) =~= Seq::<Seq<char>>::empty());
        c
    }

    /// The window's title.
    pub fn title(&self) -> (t: String)
        ensures
            t@ == "Senior Citizen AI Chatbot Test"@,
    {
        "Senior Citizen AI Chatbot Test".to_owned()
    }

    /// The theme that the window is drawn with.
    pub fn theme(&self) -> (t: ThemeChoice)
        ensures
            t == self.settings.theme,
    {
        self.settings.theme
    }

    /// What the window shows.
    pub fn screen(&self) -> (r: Screen)
        ensures
            r == screen_of(self@),
    {
        if self.recording {
            Screen::Recording
        } else {
            match &self.user {
                None => Screen::Login,
                Some(_) => Screen::Conversation,
            }
        }
    }

    /// Takes in one event of the window, as `step` says.
    pub fn update(&mut self, message: Message) -> (effect: Effect)
        requires
            accepts(old(self)@, message@),
        ensures
            (final(self)@, effect@) == step(old(self)@, message@),
    {
        match message {
            Message::TextChanged(c) => {
                self.content = c;
                Effect::Nothing
            },
            Message::TextAdded => {
                if self.content.unicode_len() > 0 {
                    let user = match &self.user {
                        Some(u) => u.clone(),
                        None => {
                            return Effect::Nothing;
                        },
                    };
                    let line = concat4(user.as_str(), ": ", self.content.as_str(), "\n");
                    push_line(&mut self.logs, line);
                    let user_text = self.user_text.clone();
                    let content = self.content.clone();
                    let bot = copy_history(&self.bot);
                    self.content = String::new();
                    Effect::FetchBotResponse { bot, content, user_text }
                } else {
                    self.content = String::new();
                    Effect::Nothing
                }
            },
            Message::UserChanged(c) => {
                self.user_text = c;
                Effect::Nothing
            },
            Message::UserAdded => {
                self.user = Some(self.user_text.clone());
                let line = concat3(
                    "Welcome to the Chatbot Experience, ",
                    self.user_text.as_str(),
                    "! Say Hi to Your AI Assistant\n (Notice: AI Voices Are Generated and Not Real Humans)",
                );
                push_line(&mut self.logs, line);
                Effect::CreateBot(self.user_text.clone())
            },
            Message::BotCreated(b) => {
                self.bot = b;
                Effect::Nothing
            },
            Message::UserLogOut => {
                let mut logs: Vec<String> = Vec::new();
                push_line(&mut logs, "Goodbye!".to_owned());
                let line = concat3("User: ", self.user_text.as_str(), " has logged out");
                push_line(&mut logs, line);
                assert(lines_view(logs@) =~= seq![goodbye_line(), logged_out_line(self.user_text@)]);
                self.logs = logs;
                self.user = None;
                self.content = String::new();
                self.user_text = String::new();
                Effect::Nothing
            },
            Message::ThemeChanged(t) => {
                self.settings.theme = t;
                Effect::Nothing
            },
            Message::VoiceChanged(v) => {
                self.settings.voice = v;
                Effect::Nothing
            },
            Message::TextFontChanged(f) => {
                self.settings.text_font = f;
                self.settings.text_family = f.convert_to_family();
                Effect::Nothing
            },
            Message::BotResponse(r) => {
                self.recording = false;
                self.recording_secs = IDLE_RECORDING_SECS;
                let line = match displayed_answer(r.as_str()) {
                    Some(l) => l,
                    None => {
                        return Effect::Nothing;
                    },
                };
                let logged = concat3("Assistant: ", line.as_str(), "\n");
                push_line(&mut self.logs, logged);
                self.content = String::new();
                Effect::PlayBotVoice { line, voice: self.settings.voice }
            },
            Message::BotVoice => Effect::Nothing,
            Message::RecordingTimeChanged(t) => {
                self.recording_time = t;
                Effect::Nothing
            },
            Message::StartMic => {
                push_line(&mut self.logs, "Starting Mic".to_owned());
                let notice = recording_notice(self.recording_time);
                push_line(&mut self.logs, notice);
                Effect::AddWarning
            },
            Message::Tick => Effect::RecordAndTranscribe(self.recording_time),
            Message::Transcribed(text, exists) => {
                if exists {
                    let user = match &self.user {
                        Some(u) => u.clone(),
                        None => {
                            return Effect::Nothing;
                        },
                    };
                    let line = concat4(user.as_str(), ": ", text.as_str(), "\n");
                    push_line(&mut self.logs, line);
                    let user_text = self.user_text.clone();
                    let bot = copy_history(&self.bot);
                    self.content = String::new();
                    Effect::FetchBotResponse { bot, content: text, user_text }
                } else {
                    Effect::Nothing
                }
            },
            Message::SideBarChanged => {
                self.side_bar = !self.side_bar;
                Effect::Nothing
            },
            Message::SettingsSaved => Effect::SaveSettings(self.settings),
        }
    }
}

/// The window shows the recording notice while recording, else the sign-in
/// box until someone signs in, and the conversation after; signing in and
/// out switch between the last two, and an answer of the model ends the
/// recording notice.
pub proof fn lemma_screens_follow_sign_in(s: ChatModel, line: Seq<char>)
    ensures
        s.recording ==> screen_of(s) == Screen::Recording,
        !s.recording && s.user is None ==> screen_of(s) == Screen::Login,
        !s.recording && s.user is Some ==> screen_of(s) == Screen::Conversation,
        !s.recording ==> screen_of(step(s, MessageModel::UserAdded).0) == Screen::Conversation,
        !s.recording ==> screen_of(step(s, MessageModel::UserLogOut).0) == Screen::Login,
        screen_of(step(s, MessageModel::BotResponse("Reply to User: "@ + line)).0) != Screen::Recording,
{
    crate::conversation::lemma_marker_is_ascii();
    lemma_bot_answer_is_shown_and_read(s, "Reply to User: "@, line);
}

/// Folding the side bar twice leaves the window as it was.
pub proof fn lemma_side_bar_toggles_back(s: ChatModel)
    ensures
        step(step(s, MessageModel::SideBarChanged).0, MessageModel::SideBarChanged).0 == s,
{
}

/// Signing out forgets the user and what was typed, and leaves exactly the
/// farewell and the sign-out line in the conversation pane.
pub proof fn lemma_log_out_forgets_user(s: ChatModel)
    ensures
        ({
            let (t, e) = step(s, MessageModel::UserLogOut);
            &&& t.user is None
            &&& t.user_text.len() == 0
            &&& t.content.len() == 0
            &&& t.logs == seq!["Goodbye!"@, "User: "@ + s.user_text + " has logged out"@]
            &&& t.bot == s.bot
            &&& t.settings == s.settings
            &&& e == EffectModel::Nothing
        }),
{
}

/// Every event but signing out keeps the lines already shown, in order.
pub proof fn lemma_logs_only_grow(s: ChatModel, m: MessageModel)
    requires
        !(m is UserLogOut),
    ensures
        ({
            let t = step(s, m).0;
            &&& s.logs.len() <= t.logs.len()
            &&& t.logs.take(s.logs.len() as int) == s.logs
        }),
{
    let t = step(s, m).0;
    assert(t.logs.take(s.logs.len() as int) =~= s.logs);
}

/// Sending with an empty message field sends nothing and logs nothing.
pub proof fn lemma_empty_text_is_not_sent(s: ChatModel)
    requires
        s.content.len() == 0,
    ensures
        step(s, MessageModel::TextAdded) == (s, EffectModel::Nothing),
{
    assert(Seq::<char>::empty() =~= s.content);
}

/// What the user sends goes to the model in the conversation created at
/// sign-in, is logged under the user's name, and the field is cleared.
pub proof fn lemma_sent_text_goes_to_bot(s: ChatModel)
    requires
        s.content.len() > 0,
        s.user is Some,
    ensures
        ({
            let (t, e) = step(s, MessageModel::TextAdded);
            &&& e == (EffectModel::FetchBotResponse {
                bot: s.bot,
                content: s.content,
                user_text: s.user_text,
            })
            &&& t.logs == s.logs.push(s.user->Some_0 + ": "@ + s.content + "\n"@)
            &&& t.content.len() == 0
            &&& t == ChatModel { logs: t.logs, content: t.content, ..s }
        }),
{
}

/// Changing the theme, the voice or the font changes the settings alone.
pub proof fn lemma_choices_change_settings_only(s: ChatModel, m: MessageModel)
    requires
        m is ThemeChanged || m is VoiceChanged || m is TextFontChanged,
    ensures
        ({
            let (t, e) = step(s, m);
            &&& t == ChatModel { settings: t.settings, ..s }
            &&& e == EffectModel::Nothing
            &&& (m matches MessageModel::ThemeChanged(x) ==> t.settings == Settings { theme: x, ..s.settings })
            &&& (m matches MessageModel::VoiceChanged(x) ==> t.settings == Settings { voice: x, ..s.settings })
            &&& (m == MessageModel::TextFontChanged(Fonts::Serif) ==> t.settings == Settings {
                text_font: Fonts::Serif,
                text_family: FontFamily::Serif,
                ..s.settings
            })
            &&& (m == MessageModel::TextFontChanged(Fonts::Monospace) ==> t.settings == Settings {
                text_font: Fonts::Monospace,
                text_family: FontFamily::Monospace,
                ..s.settings
            })
        }),
{
}

/// What the user says into the microphone goes to the model exactly as typed
/// text does: in the conversation created at sign-in, under the user's name,
/// and is logged; where no recording was made, nothing happens.
pub proof fn lemma_spoken_text_goes_to_bot(s: ChatModel, text: Seq<char>)
    requires
        s.user is Some,
    ensures
        ({
            let (t, e) = step(s, MessageModel::Transcribed(text, true));
            &&& e == (EffectModel::FetchBotResponse {
                bot: s.bot,
                content: text,
                user_text: s.user_text,
            })
            &&& t.logs == s.logs.push(s.user->Some_0 + ": "@ + text + "\n"@)
            &&& t.content.len() == 0
            &&& t == ChatModel { logs: t.logs, content: t.content, ..s }
        }),
        step(s, MessageModel::Transcribed(text, false)) == (s, EffectModel::Nothing),
{
}

/// Signing in takes the typed name as the user, greets them, and asks for
/// their conversation to be created.
pub proof fn lemma_sign_in_greets_user(s: ChatModel)
    ensures
        ({
            let (t, e) = step(s, MessageModel::UserAdded);
            &&& t.user == Some(s.user_text)
            &&& t.logs == s.logs.push(
                "Welcome to the Chatbot Experience, "@ + s.user_text
                    + "! Say Hi to Your AI Assistant\n (Notice: AI Voices Are Generated and Not Real Humans)"@,
            )
            &&& t == ChatModel { user: t.user, logs: t.logs, ..s }
            &&& e == EffectModel::CreateBot(s.user_text)
        }),
{
}

/// An answer of the model is shown without its first fifteen characters
/// (the marker, when they are one byte each), logged as the assistant's,
/// read aloud with the chosen voice, and ends any recording.
pub proof fn lemma_bot_answer_is_shown_and_read(s: ChatModel, head: Seq<char>, line: Seq<char>)
    requires
        head.len() == 15,
        forall|i: int| 0 <= i < 15 ==> (#[trigger] head[i] as u32) < 0x80,
    ensures
        ({
            let (t, e) = step(s, MessageModel::BotResponse(head + line));
            &&& e == (EffectModel::PlayBotVoice { line: line, voice: s.settings.voice })
            &&& t.logs == s.logs.push("Assistant: "@ + line + "\n"@)
            &&& !t.recording
            &&& t.recording_secs == 10
            &&& t.content.len() == 0
            &&& t == ChatModel {
                logs: t.logs,
                content: t.content,
                recording: t.recording,
                recording_secs: t.recording_secs,
                ..s
            }
        }),
{
    crate::conversation::lemma_marker_is_ascii();
    let r = head + line;
    assert forall|i: int| 0 <= i < 15 implies (#[trigger] r[i] as u32) < 0x80 by {
        assert(r[i] == head[i]);
    }
    assert(r.skip(15) =~= line);
    crate::text::lemma_byte_suffix_of_ascii_prefix(r, 15);
}

/// Starting the microphone logs the notice with the recording time and asks
/// for the warning; the tick that follows asks for a recording of that many
/// seconds and changes nothing.
pub proof fn lemma_microphone_records_the_chosen_time(s: ChatModel)
    ensures
        ({
            let (t, e) = step(s, MessageModel::StartMic);
            &&& t.logs == s.logs.push("Starting Mic"@).push(
                "Assistant: Now Recording - You Have "@ + decimal(s.recording_time as nat)
                    + " seconds to speak"@,
            )
            &&& t == ChatModel { logs: t.logs, ..s }
            &&& e == EffectModel::AddWarning
        }),
        step(s, MessageModel::Tick) == (s, EffectModel::RecordAndTranscribe(s.recording_time)),
{
}

/// Typing into a field, choosing a recording time and receiving the created
/// conversation each set their own part of the window alone; saving asks
/// for the current settings to be written; the end of a reading changes
/// nothing.
pub proof fn lemma_fields_take_their_input(s: ChatModel, c: Seq<char>, n: u64, b: Seq<ChatMessageView>)
    ensures
        step(s, MessageModel::TextChanged(c)) == (ChatModel { content: c, ..s }, EffectModel::Nothing),
        step(s, MessageModel::UserChanged(c)) == (ChatModel { user_text: c, ..s }, EffectModel::Nothing),
        step(s, MessageModel::RecordingTimeChanged(n)) == (
            ChatModel { recording_time: n, ..s },
            EffectModel::Nothing,
        ),
        step(s, MessageModel::BotCreated(b)) == (ChatModel { bot: b, ..s }, EffectModel::Nothing),
        step(s, MessageModel::SettingsSaved) == (s, EffectModel::SaveSettings(s.settings)),
        step(s, MessageModel::BotVoice) == (s, EffectModel::Nothing),
{
}

} // verus!
