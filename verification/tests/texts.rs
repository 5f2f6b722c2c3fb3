use tgdigest::login::{
    login_step, parse_api_id, password_prompt, LoginAction, LoginEvent, LoginStage, SignInOutcome,
};
use tgdigest::page::{card_file_name, output_file_name};
use tgdigest::paths::{fix_path_slash, from_slash_form, handle_path, resolve_path, PathError};
use tgdigest::text::{chars_of, replace, string_of};

#[test]
fn output_names() {
    assert_eq!(output_file_name("digest_template.html"), "digest.html");
    assert_eq!(output_file_name("mode/render_template.html"), "mode_render.html");
    assert_eq!(output_file_name("a\\b/c_template_template.html"), "a_b_c.html");
    assert_eq!(output_file_name("plain.html"), "plain.html");
    assert_eq!(output_file_name(""), "");
    for name in ["x/y\\z_template", "_temp_templatelate", "//\\\\"] {
        let expected = name.replace("_template", "").replace("/", "_").replace("\\", "_");
        assert_eq!(output_file_name(name), expected);
    }
}

#[test]
fn replacing_like_std() {
    for (s, p, r) in [("aaaa", "aa", "b"), ("abcabc", "bc", ""), ("xyz", "q", "w"), ("ééé", "é", "e"), ("", "a", "b")] {
        assert_eq!(replace(s, p, r), s.replace(p, r));
    }
    assert_eq!(chars_of("héllo"), vec!['h', 'é', 'l', 'l', 'o']);
    assert_eq!(string_of(&vec!['o', 'k']), "ok");
}

#[test]
fn card_files() {
    assert_eq!(card_file_name(0), "card_00.png");
    assert_eq!(card_file_name(3), "card_03.png");
    assert_eq!(card_file_name(12), "card_12.png");
    assert_eq!(card_file_name(123), "card_123.png");
    for i in [7usize, 10, 99, 100, 4096] {
        assert_eq!(card_file_name(i), format!("card_{:02}.png", i));
    }
}

#[test]
fn api_ids() {
    assert_eq!(parse_api_id("123456"), Some(123456));
    assert_eq!(parse_api_id("+42"), Some(42));
    assert_eq!(parse_api_id("-17"), Some(-17));
    assert_eq!(parse_api_id("2147483647"), Some(i32::MAX));
    assert_eq!(parse_api_id("-2147483648"), Some(i32::MIN));
    assert_eq!(parse_api_id("2147483648"), None);
    assert_eq!(parse_api_id("-2147483649"), None);
    assert_eq!(parse_api_id("99999999999999999999"), None);
    assert_eq!(parse_api_id(""), None);
    assert_eq!(parse_api_id("-"), None);
    assert_eq!(parse_api_id("+"), None);
    assert_eq!(parse_api_id("12a"), None);
    assert_eq!(parse_api_id(" 1"), None);
    assert_eq!(parse_api_id("--1"), None);
    assert_eq!(parse_api_id("007"), Some(7));
    for s in ["0", "-0", "+-1", "1_000", "٣", "2147483647", "-2147483648", "2147483650"] {
        assert_eq!(parse_api_id(s), s.parse::<i32>().ok());
    }
}

#[test]
fn password_prompts() {
    assert_eq!(password_prompt(Some("cat")), "Enter the password (hint cat): ");
    assert_eq!(password_prompt(None), "Enter the password (hint None): ");
}

#[test]
fn login_flows() {
    let (s, a) = login_step(LoginStage::Connecting, LoginEvent::Connected);
    assert_eq!((s, a), (LoginStage::Authorizing, LoginAction::CheckAuthorization));
    assert_eq!(login_step(s, LoginEvent::Authorization(true)), (LoginStage::Finished, LoginAction::Finish));
    let (s, a) = login_step(s, LoginEvent::Authorization(false));
    assert_eq!((s, a), (LoginStage::SigningIn, LoginAction::SignIn));
    assert_eq!(
        login_step(s, LoginEvent::SignIn(SignInOutcome::Refused)),
        (LoginStage::Failed, LoginAction::Fail)
    );
    assert_eq!(
        login_step(s, LoginEvent::SignIn(SignInOutcome::Accepted)),
        (LoginStage::Saving, LoginAction::SaveSession)
    );
    let (s, a) = login_step(s, LoginEvent::SignIn(SignInOutcome::PasswordRequired));
    assert_eq!((s, a), (LoginStage::CheckingPassword, LoginAction::AskPassword));
    let (s, a) = login_step(s, LoginEvent::PasswordChecked);
    assert_eq!((s, a), (LoginStage::Saving, LoginAction::SaveSession));
    assert_eq!(login_step(s, LoginEvent::SessionSaved(true)), (LoginStage::Finished, LoginAction::Finish));
    assert_eq!(login_step(s, LoginEvent::SessionSaved(false)), (LoginStage::Finished, LoginAction::WarnUnsaved));
    assert_eq!(login_step(LoginStage::Finished, LoginEvent::Connected), (LoginStage::Failed, LoginAction::Fail));
}

#[test]
fn slashed_paths() {
    assert_eq!(fix_path_slash("/home/user/cfg.json"), Ok(String::from("/home/user/cfg.json")));
    assert_eq!(fix_path_slash("/srv/./in"), Ok(String::from("/srv/./in")));
}

#[test]
fn paths_without_slash_form() {
    assert_eq!(from_slash_form("a\\b", None), Err(PathError::NotSlashable(String::from("a\\b"))));
    assert_eq!(from_slash_form("a\\b", Some(String::from("a/b"))), Ok(String::from("a/b")));
}

#[test]
fn plain_names_keep_their_text() {
    assert_eq!(fix_path_slash("cfg.json"), Ok(String::from("cfg.json")));
    assert_eq!(fix_path_slash(".."), Ok(String::from("..")));
}

#[test]
fn configured_paths() {
    assert_eq!(
        handle_path(Some("rel"), true, Some("rel/x"), true),
        Err(PathError::RelativeWorkingDir(String::from("rel")))
    );
    assert_eq!(
        handle_path(None, true, None, false),
        Err(PathError::RelativeWorkingDir(String::from("<not UTF-8 path>")))
    );
    assert_eq!(
        handle_path(Some("/w"), false, Some("/w/missing"), false),
        Err(PathError::Missing(String::from("/w/missing")))
    );
    assert_eq!(
        handle_path(Some("/w"), false, None, true),
        Err(PathError::NotSlashable(String::from("<not UTF-8 path>")))
    );
    assert_eq!(handle_path(Some("/w"), false, Some("/w/cfg.json"), true), Ok(String::from("/w/cfg.json")));
    assert_eq!(
        resolve_path("/w", false, "/w/a", true, Some(String::from("W/A"))),
        Ok(String::from("W/A"))
    );
    assert_eq!(
        resolve_path("/w", false, "/w/a", true, None),
        Err(PathError::NotSlashable(String::from("/w/a")))
    );
}

#[test]
fn paths_in_slash_form_keep_their_text() {
    assert_eq!(fix_path_slash("/srv/digest/../in"), Ok(String::from("/srv/digest/../in")));
    assert_eq!(fix_path_slash("in/templates"), Ok(String::from("in/templates")));
    assert_eq!(
        handle_path(Some("/w"), false, Some("/w/in/out"), true),
        Ok(String::from("/w/in/out"))
    );
}
