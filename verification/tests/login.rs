use wlgreet::buffer::{Buffer, Region};
use wlgreet::color::Color;
use wlgreet::config::Config;
use wlgreet::widget::{DrawContext, DrawError, KeyState, ModifiersState, Timestamp, Widget};
use wlgreet::widgets::login::{
    AuthMessageType, ErrorType, Login, LoginAction, LoginEvent, Phase, Request, Response,
    Scrambler,
};

const KEY_C: u32 = 0x63;
const KEY_U: u32 = 0x75;
const KEY_BACKSPACE: u32 = 0xff08;
const KEY_RETURN: u32 = 0xff0d;

fn mods(ctrl: bool) -> ModifiersState {
    ModifiersState { ctrl, alt: false, shift: false, caps_lock: false, logo: false, num_lock: false }
}

fn press(login: &mut Login, keysym: u32, ctrl: bool, text: Option<&str>) {
    login.keyboard_input(keysym, mods(ctrl), KeyState::Pressed, text.map(|t| t.to_string()));
}

fn type_text(login: &mut Login, text: &str) {
    for c in text.chars() {
        press(login, c as u32, false, Some(&c.to_string()));
    }
}

fn login() -> Login {
    Login::new("sway".to_string())
}

/// A login that was asked for a password after the user name `user`.
fn asked_for_password(user: &str) -> Login {
    let mut l = login();
    type_text(&mut l, user);
    press(&mut l, KEY_RETURN, false, None);
    assert_eq!(
        l.take_request(),
        LoginAction::Send(Request::CreateSession { username: user.to_string() })
    );
    assert_eq!(l.advance(LoginEvent::Sent), LoginAction::Receive);
    let asked = l.advance(LoginEvent::Received(Response::AuthMessage {
        auth_message_type: AuthMessageType::Secret,
        auth_message: "Password:".to_string(),
    }));
    assert_eq!(asked, LoginAction::Done);
    l
}

#[test]
fn a_new_login_asks_for_the_user_name() {
    let l = login();
    assert_eq!(l.question(), "username:");
    assert_eq!(l.answer(), "");
    assert_eq!(l.command(), "sway");
    assert_eq!(l.error(), "");
    assert_eq!(l.mode(), None);
    assert_eq!(l.phase(), Phase::Idle);
    assert!(!l.is_dirty());
    assert_eq!(l.size(), (1024, 128));
    assert_eq!(Login::panel_size(), (1024, 128));
}

#[test]
fn typed_text_is_appended_and_backspace_takes_the_last_character() {
    let mut l = login();
    type_text(&mut l, "abc");
    assert_eq!(l.answer(), "abc");
    assert!(l.is_dirty());
    press(&mut l, KEY_BACKSPACE, false, None);
    assert_eq!(l.answer(), "ab");
    press(&mut l, 0x1000_00e9, false, Some("é"));
    assert_eq!(l.answer(), "abé");
    press(&mut l, KEY_BACKSPACE, false, None);
    assert_eq!(l.answer(), "ab");
    press(&mut l, KEY_BACKSPACE, false, None);
    press(&mut l, KEY_BACKSPACE, false, None);
    press(&mut l, KEY_BACKSPACE, false, None);
    assert_eq!(l.answer(), "");
}

#[test]
fn a_key_without_text_changes_nothing() {
    let mut l = login();
    press(&mut l, 0xffe1, false, None);
    assert_eq!(l.answer(), "");
    assert!(!l.is_dirty());
}

#[test]
fn u_and_c_without_control_are_text() {
    let mut l = login();
    press(&mut l, KEY_U, false, Some("u"));
    press(&mut l, KEY_C, false, Some("c"));
    assert_eq!(l.answer(), "uc");
}

#[test]
fn an_answer_that_starts_with_a_bang_sets_the_command() {
    let mut l = asked_for_password("ann");
    type_text(&mut l, "!fish -l");
    press(&mut l, KEY_RETURN, false, None);
    assert_eq!(l.command(), "fish -l");
    assert_eq!(l.error(), "Command set to: fish -l");
    assert_eq!(l.answer(), "");
    assert_eq!(l.mode(), None);
    assert_eq!(l.phase(), Phase::Idle);
    assert_eq!(l.take_request(), LoginAction::Done);
    assert!(l.is_dirty());
}

#[test]
fn a_lone_bang_sets_an_empty_command() {
    let mut l = login();
    type_text(&mut l, "!");
    press(&mut l, KEY_RETURN, false, None);
    assert_eq!(l.command(), "");
    assert_eq!(l.error(), "Command set to: ");
}

#[test]
fn return_sends_the_user_name_and_then_the_answers() {
    let mut l = asked_for_password("ann");
    assert_eq!(l.question(), "Password:");
    assert_eq!(l.mode(), Some(AuthMessageType::Secret));
    assert_eq!(l.answer(), "");
    assert_eq!(l.phase(), Phase::Idle);
    type_text(&mut l, "secret");
    press(&mut l, KEY_RETURN, false, None);
    assert_eq!(l.phase(), Phase::SendingAuth);
    assert_eq!(
        l.take_request(),
        LoginAction::Send(Request::PostAuthMessageResponse { response: Some("secret".to_string()) })
    );
    assert_eq!(l.take_request(), LoginAction::Done);
    assert_eq!(l.answer(), "");
}

#[test]
fn success_starts_the_session_with_the_command_and_exits() {
    let mut l = asked_for_password("ann");
    type_text(&mut l, "secret");
    press(&mut l, KEY_RETURN, false, None);
    l.take_request();
    assert_eq!(l.advance(LoginEvent::Sent), LoginAction::Receive);
    assert_eq!(
        l.advance(LoginEvent::Received(Response::Success)),
        LoginAction::Send(Request::StartSession { cmd: vec!["sway".to_string()], env: vec![] })
    );
    assert_eq!(l.advance(LoginEvent::Sent), LoginAction::Receive);
    assert_eq!(
        l.advance(LoginEvent::Received(Response::Success)),
        LoginAction::Exit { code: 0, message: None }
    );
    assert_eq!(l.phase(), Phase::Idle);
}

#[test]
fn a_refused_login_cancels_twice_and_starts_over() {
    let mut l = asked_for_password("ann");
    type_text(&mut l, "wrong");
    press(&mut l, KEY_RETURN, false, None);
    l.take_request();
    l.advance(LoginEvent::Sent);
    let refused = l.advance(LoginEvent::Received(Response::Error {
        error_type: ErrorType::AuthError,
        description: "pam said no".to_string(),
    }));
    assert_eq!(refused, LoginAction::Send(Request::CancelSession));
    assert_eq!(l.phase(), Phase::CancellingRefused);
    assert_eq!(l.advance(LoginEvent::Sent), LoginAction::Send(Request::CancelSession));
    assert_eq!(l.error(), "Login failed");
    assert_eq!(l.question(), "username:");
    assert_eq!(l.mode(), None);
    assert_eq!(l.phase(), Phase::CancellingFailed);
    assert_eq!(l.advance(LoginEvent::Sent), LoginAction::Done);
    assert_eq!(l.phase(), Phase::Idle);
    assert_eq!(l.error(), "Login failed");
}

#[test]
fn another_error_of_the_session_manager_ends_the_process() {
    let mut l = login();
    type_text(&mut l, "ann");
    press(&mut l, KEY_RETURN, false, None);
    l.take_request();
    l.advance(LoginEvent::Sent);
    let refused = l.advance(LoginEvent::Received(Response::Error {
        error_type: ErrorType::Error,
        description: "no such user".to_string(),
    }));
    assert_eq!(refused, LoginAction::Send(Request::CancelSession));
    assert_eq!(
        l.advance(LoginEvent::Sent),
        LoginAction::Exit { code: -1, message: Some("no such user".to_string()) }
    );
}

#[test]
fn errors_at_the_start_of_the_session() {
    let start = |response: Response| {
        let mut l = login();
        type_text(&mut l, "ann");
        press(&mut l, KEY_RETURN, false, None);
        l.take_request();
        l.advance(LoginEvent::Sent);
        l.advance(LoginEvent::Received(Response::Success));
        l.advance(LoginEvent::Sent);
        let action = l.advance(LoginEvent::Received(response));
        (l, action)
    };
    let (l, action) = start(Response::Error {
        error_type: ErrorType::AuthError,
        description: "x".to_string(),
    });
    assert_eq!(action, LoginAction::Send(Request::CancelSession));
    assert_eq!(l.error(), "Login failed");
    let (_, action) =
        start(Response::Error { error_type: ErrorType::Error, description: "broken".to_string() });
    assert_eq!(action, LoginAction::Exit { code: -1, message: Some("broken".to_string()) });
    let (_, action) = start(Response::AuthMessage {
        auth_message_type: AuthMessageType::Info,
        auth_message: "hello".to_string(),
    });
    assert_eq!(action, LoginAction::Abort("unexpected message".to_string()));
}

#[test]
fn a_failed_exchange_shows_the_failure_and_cancels() {
    let mut l = asked_for_password("ann");
    type_text(&mut l, "pw");
    press(&mut l, KEY_RETURN, false, None);
    l.take_request();
    let action = l.advance(LoginEvent::Failed("broken pipe".to_string()));
    assert_eq!(action, LoginAction::Send(Request::CancelSession));
    assert_eq!(l.error(), "broken pipe");
    assert_eq!(l.question(), "username:");
    assert_eq!(l.mode(), None);
    assert_eq!(l.advance(LoginEvent::Failed("still broken".to_string())), LoginAction::Done);
    assert_eq!(l.error(), "still broken");
    assert_eq!(l.phase(), Phase::Idle);
}

#[test]
fn control_u_starts_over_and_cancels_an_open_session() {
    let mut l = asked_for_password("ann");
    type_text(&mut l, "pw");
    press(&mut l, KEY_U, true, Some("u"));
    assert_eq!(l.answer(), "");
    assert_eq!(l.question(), "username:");
    assert_eq!(l.mode(), None);
    assert_eq!(l.phase(), Phase::CancellingKey);
    assert_eq!(l.take_request(), LoginAction::Send(Request::CancelSession));
    assert_eq!(l.advance(LoginEvent::Sent), LoginAction::Done);
    assert_eq!(l.phase(), Phase::Idle);
}

#[test]
fn control_c_without_a_session_only_clears() {
    let mut l = login();
    type_text(&mut l, "ann");
    press(&mut l, KEY_C, true, None);
    assert_eq!(l.answer(), "");
    assert_eq!(l.phase(), Phase::Idle);
    assert_eq!(l.take_request(), LoginAction::Done);
    assert!(l.is_dirty());
}

#[test]
fn a_cancel_that_fails_after_a_key_gives_up() {
    let mut l = asked_for_password("ann");
    press(&mut l, KEY_C, true, None);
    l.take_request();
    assert_eq!(
        l.advance(LoginEvent::Failed("gone".to_string())),
        LoginAction::Abort("unable to cancel".to_string())
    );
}

#[test]
fn keys_are_dropped_while_an_exchange_is_under_way() {
    let mut l = login();
    type_text(&mut l, "ann");
    press(&mut l, KEY_RETURN, false, None);
    type_text(&mut l, "zzz");
    press(&mut l, KEY_BACKSPACE, false, None);
    press(&mut l, KEY_RETURN, false, None);
    assert_eq!(l.answer(), "");
    assert_eq!(l.phase(), Phase::SendingAuth);
}

#[test]
fn an_event_without_an_exchange_is_ignored() {
    let mut l = login();
    assert_eq!(l.advance(LoginEvent::Sent), LoginAction::Done);
    assert_eq!(l.advance(LoginEvent::Received(Response::Success)), LoginAction::Done);
    assert_eq!(l.phase(), Phase::Idle);
}

#[test]
fn an_event_out_of_turn_gives_up() {
    let mut l = login();
    type_text(&mut l, "ann");
    press(&mut l, KEY_RETURN, false, None);
    assert_eq!(
        l.advance(LoginEvent::Received(Response::Success)),
        LoginAction::Abort("unexpected message".to_string())
    );
}

#[test]
fn a_secret_answer_is_shown_as_one_star_for_each_byte() {
    let mut l = asked_for_password("ann");
    assert_eq!(l.shown_answer(), Some("".to_string()));
    type_text(&mut l, "pé1");
    assert_eq!(l.shown_answer(), Some("****".to_string()));
}

#[test]
fn a_visible_answer_is_shown_as_typed_and_a_notice_shows_none() {
    let mut l = login();
    type_text(&mut l, "ann");
    assert_eq!(l.shown_answer(), Some("ann".to_string()));
    press(&mut l, KEY_RETURN, false, None);
    l.take_request();
    l.advance(LoginEvent::Sent);
    l.advance(LoginEvent::Received(Response::AuthMessage {
        auth_message_type: AuthMessageType::Info,
        auth_message: "Touch the key".to_string(),
    }));
    assert_eq!(l.shown_answer(), None);
}

#[test]
fn the_texts_have_their_places_on_the_panel() {
    let panel = Region::new(10, 20, 1024, 128);
    assert_eq!(Login::headline_area(&panel), Ok(Region::new(42, 44, 992, 104)));
    assert_eq!(Login::question_area(&panel), Ok(Region::new(266, 44, 768, 104)));
    assert_eq!(Login::error_area(&panel), Ok(Region::new(266, 84, 768, 64)));
    assert_eq!(Login::answer_area(&panel, 100), Ok(Region::new(382, 44, 576, 64)));
    assert_eq!(Login::answer_area(&panel, 176), Ok(Region::new(458, 44, 576, 64)));
    assert!(Login::answer_area(&panel, 177).is_err());
    assert!(Login::answer_area(&panel, u32::MAX).is_err());
}

fn draw(l: &mut Login, force: bool, size: (u32, u32)) -> (Result<Vec<(i32, i32, i32, i32)>, DrawError>, Vec<u32>) {
    let bg = Color::new(0, 0, 0, 229);
    let config = Config::default();
    let time = Timestamp { secs: 0, nanos: 0, utc_offset: 0 };
    let buf = Buffer::new(vec![1u32; (size.0 * size.1) as usize], size);
    let region = buf.region();
    let mut ctx = DrawContext { buf, region, bg: &bg, time: &time, force, config: &config };
    let report = l.draw(&mut ctx, (0, 0)).map(|report| {
        assert_eq!((report.width, report.height), (1024, 128));
        assert!(!report.full_damage);
        report.damage
    });
    (report, ctx.buf.into_inner())
}

#[test]
fn a_clean_login_draws_nothing() {
    let mut l = login();
    let (report, pixels) = draw(&mut l, false, (1024, 128));
    assert_eq!(report, Ok(vec![]));
    assert!(pixels.iter().all(|p| *p == 1));
}

#[test]
fn a_dirty_login_draws_its_ground_and_outline() {
    let mut l = login();
    type_text(&mut l, "a");
    let (report, pixels) = draw(&mut l, false, (1030, 130));
    assert_eq!(report, Ok(vec![(0, 0, 1024, 128)]));
    assert!(!l.is_dirty());
    let at = |x: usize, y: usize| pixels[y * 1030 + x];
    let white = 0xffff_ffffu32;
    let ground = 0xe500_0000u32;
    assert_eq!(at(0, 0), white);
    assert_eq!(at(1023, 0), white);
    assert_eq!(at(0, 127), white);
    assert_eq!(at(1023, 127), white);
    assert_eq!(at(500, 0), white);
    assert_eq!(at(500, 127), white);
    assert_eq!(at(0, 64), white);
    assert_eq!(at(1023, 64), white);
    assert_eq!(at(1, 1), ground);
    assert_eq!(at(1022, 126), ground);
    assert_eq!(at(1024, 0), 1);
    assert_eq!(at(0, 128), 1);
    let (again, _) = draw(&mut l, false, (1030, 130));
    assert_eq!(again, Ok(vec![]));
}

#[test]
fn a_forced_drawing_draws_a_clean_login() {
    let mut l = login();
    let (report, pixels) = draw(&mut l, true, (1024, 128));
    assert_eq!(report, Ok(vec![(0, 0, 1024, 128)]));
    assert_eq!(pixels[1024 + 1], 0xe500_0000);
}

#[test]
fn a_frame_that_is_too_small_is_refused() {
    let mut l = login();
    let (report, pixels) = draw(&mut l, true, (1023, 128));
    assert_eq!(report, Err(DrawError::OutOfBounds));
    assert!(pixels.iter().all(|p| *p == 1));
    let (report, _) = draw(&mut l, true, (1024, 127));
    assert_eq!(report, Err(DrawError::OutOfBounds));
}

#[test]
fn mouse_events_leave_the_login_alone() {
    let mut l = login();
    l.mouse_click(272, (1, 1));
    l.mouse_scroll((0, 256), (1, 1));
    assert!(!l.is_dirty());
    assert_eq!(l.answer(), "");
}

#[test]
fn scrambling_leaves_nothing_behind() {
    let mut secret = String::from("hunter2");
    secret.scramble();
    assert_eq!(secret, "");
    let mut bytes: Vec<u8> = vec![1, 2, 3];
    bytes.scramble();
    assert!(bytes.is_empty());
    let mut empty: Vec<u32> = Vec::new();
    empty.scramble();
    assert!(empty.is_empty());
}
