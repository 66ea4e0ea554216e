use kiya::conversation::create_bot;
use kiya::gui::{bubble_for, Bubble, Chat, Effect, Message, Screen};
use kiya::settings::{default_settings, FontFamily, Fonts, ThemeChoice, Voices};

fn signed_in() -> Chat {
    let mut c = Chat::new(default_settings());
    c.update(Message::UserChanged("dorothy".to_string()));
    let e = c.update(Message::UserAdded);
    match e {
        Effect::CreateBot(u) => assert_eq!(u, "dorothy"),
        _ => panic!("expected CreateBot"),
    }
    c.update(Message::BotCreated(create_bot("prompt".to_string())));
    c
}

#[test]
fn new_window_is_empty() {
    let c = Chat::new(default_settings());
    assert!(c.user.is_none());
    assert!(c.logs.is_empty());
    assert!(c.side_bar);
    assert_eq!(c.recording_time, 10);
    assert!(!c.recording);
    assert_eq!(c.recording_secs, 10);
    assert_eq!(c.title(), "Senior Citizen AI Chatbot Test");
    assert_eq!(c.theme(), ThemeChoice::GruvboxDark);
}

#[test]
fn sign_in_greets_user() {
    let c = signed_in();
    assert_eq!(c.user.as_deref(), Some("dorothy"));
    assert_eq!(
        c.logs,
        vec!["Welcome to the Chatbot Experience, dorothy! Say Hi to Your AI Assistant\n (Notice: AI Voices Are Generated and Not Real Humans)".to_string()]
    );
    assert_eq!(c.bot.len(), 1);
}

#[test]
fn sending_text_asks_the_bot() {
    let mut c = signed_in();
    c.update(Message::TextChanged("hello".to_string()));
    let e = c.update(Message::TextAdded);
    match e {
        Effect::FetchBotResponse { bot, content, user_text } => {
            assert_eq!(bot.len(), 1);
            assert_eq!(content, "hello");
            assert_eq!(user_text, "dorothy");
        }
        _ => panic!("expected FetchBotResponse"),
    }
    assert_eq!(c.logs.last().unwrap(), "dorothy: hello\n");
    assert_eq!(c.content, "");
}

#[test]
fn empty_text_is_not_sent() {
    let mut c = signed_in();
    let before = c.logs.len();
    assert!(matches!(c.update(Message::TextAdded), Effect::Nothing));
    assert_eq!(c.logs.len(), before);
}

#[test]
fn bot_answer_is_logged_and_read_aloud() {
    let mut c = signed_in();
    c.update(Message::VoiceChanged(Voices::Onyx));
    let e = c.update(Message::BotResponse("Reply to User: Good morning!".to_string()));
    match e {
        Effect::PlayBotVoice { line, voice } => {
            assert_eq!(line, "Good morning!");
            assert_eq!(voice, Voices::Onyx);
        }
        _ => panic!("expected PlayBotVoice"),
    }
    assert_eq!(c.logs.last().unwrap(), "Assistant: Good morning!\n");
    assert!(!c.recording);
}

#[test]
fn log_out_leaves_two_lines() {
    let mut c = signed_in();
    c.update(Message::TextChanged("typed".to_string()));
    c.update(Message::UserLogOut);
    assert!(c.user.is_none());
    assert_eq!(c.user_text, "");
    assert_eq!(c.content, "");
    assert_eq!(c.logs, vec!["Goodbye!".to_string(), "User: dorothy has logged out".to_string()]);
}

#[test]
fn microphone_announces_recording_time() {
    let mut c = signed_in();
    c.update(Message::RecordingTimeChanged(25));
    assert!(matches!(c.update(Message::StartMic), Effect::AddWarning));
    let n = c.logs.len();
    assert_eq!(c.logs[n - 2], "Starting Mic");
    assert_eq!(c.logs[n - 1], "Assistant: Now Recording - You Have 25 seconds to speak");
    assert!(matches!(c.update(Message::Tick), Effect::RecordAndTranscribe(25)));
}

#[test]
fn transcription_is_sent_when_recorded() {
    let mut c = signed_in();
    let e = c.update(Message::Transcribed("I feel fine".to_string(), true));
    match e {
        Effect::FetchBotResponse { content, user_text, .. } => {
            assert_eq!(content, "I feel fine");
            assert_eq!(user_text, "dorothy");
        }
        _ => panic!("expected FetchBotResponse"),
    }
    assert_eq!(c.logs.last().unwrap(), "dorothy: I feel fine\n");
    let before = c.logs.len();
    assert!(matches!(c.update(Message::Transcribed("x".to_string(), false)), Effect::Nothing));
    assert_eq!(c.logs.len(), before);
}

#[test]
fn side_bar_toggles() {
    let mut c = Chat::new(default_settings());
    c.update(Message::SideBarChanged);
    assert!(!c.side_bar);
    c.update(Message::SideBarChanged);
    assert!(c.side_bar);
}

#[test]
fn choices_change_settings() {
    let mut c = Chat::new(default_settings());
    c.update(Message::ThemeChanged(ThemeChoice::Dracula));
    c.update(Message::TextFontChanged(Fonts::Monospace));
    assert_eq!(c.settings.theme, ThemeChoice::Dracula);
    assert_eq!(c.settings.text_font, Fonts::Monospace);
    assert_eq!(c.settings.text_family, FontFamily::Monospace);
    match c.update(Message::SettingsSaved) {
        Effect::SaveSettings(s) => assert_eq!(s, c.settings),
        _ => panic!("expected SaveSettings"),
    }
    assert!(matches!(c.update(Message::BotVoice), Effect::Nothing));
}

#[test]
fn screens() {
    let c = Chat::new(default_settings());
    assert_eq!(c.screen(), Screen::Login);
    let mut c = signed_in();
    assert_eq!(c.screen(), Screen::Conversation);
    c.recording = true;
    assert_eq!(c.screen(), Screen::Recording);
    c.update(Message::UserLogOut);
    assert_eq!(c.screen(), Screen::Recording);
    c.update(Message::BotResponse("Reply to User: ok".to_string()));
    assert_eq!(c.screen(), Screen::Login);
}

#[test]
fn bubbles_alternate() {
    assert_eq!(bubble_for(-1), Bubble::Banner);
    assert_eq!(bubble_for(0), Bubble::Left);
    assert_eq!(bubble_for(1), Bubble::Right);
    assert_eq!(bubble_for(4), Bubble::Left);
    assert_eq!(bubble_for(-2), Bubble::Left);
    assert_eq!(bubble_for(-3), Bubble::Right);
}
