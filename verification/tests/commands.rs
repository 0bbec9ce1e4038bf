use imp::auth::auth::{
    AuthFailure, AuthResult, Challenge, ProviderCall, ProviderFailure, ProviderReply,
};
use imp::auth::types::Tokens;
use imp::commands::confirm::parse_number;
use imp::commands::confirm::{confirm_command, custom_response, Answer};
use imp::commands::log::{log_command, LogError};
use imp::commands::update::update_command;
use imp::auth::config::{CONFIG_DIRECTORY, JWKS_FILE, TOKENS_FILE};
use imp::commands::plan::plan_command;
use imp::commands::view::{pok_line, view_command, Pok};
use imp::commands::login::{login_command, Login, LoginError, LoginInput, LoginOutcome, LoginStep};
use imp::commands::logout::{logout_command, Logout, LogoutError, LogoutInput, LogoutStep, Scope};
use imp::commands::process::{join_words, Invocation};
use imp::commands::shell::{handle_app, AppCommands, AppResponse};
use imp::commands::uninstall::{keeps_line, remove_path_from_file, uninstall_command};
use imp::meta::{get_project_dir, handle_meta, MetaCommands};

fn text(s: &str) -> String {
    s.to_string()
}

fn words(list: &[&str]) -> Vec<String> {
    list.iter().map(|word| word.to_string()).collect()
}

fn line(invocation: &Invocation) -> Vec<String> {
    let mut line = vec![invocation.program.clone()];
    line.extend(invocation.args.iter().cloned());
    line
}

fn reply(challenge: Option<Challenge>, session: Option<&str>, authenticated: bool) -> ProviderReply {
    ProviderReply {
        challenge,
        session: session.map(text),
        authentication_result: if authenticated {
            Some(AuthResult {
                access_token: Some(text("access")),
                id_token: Some(text("id")),
                refresh_token: Some(text("refresh")),
            })
        } else {
            None
        },
    }
}

fn credential() -> Tokens {
    Tokens { access_token: text("access"), id_token: text("id"), refresh_token: text("refresh") }
}

#[test]
fn login_with_a_valid_session_does_nothing() {
    let state = Login::new();
    assert!(matches!(state.step(), LoginStep::Recover));
    let state = login_command(state, LoginInput::Session(true));
    assert!(matches!(state.step(), LoginStep::Finish(LoginOutcome::AlreadyLoggedIn)));
}

#[test]
fn login_of_an_existing_user() {
    let state = login_command(Login::new(), LoginInput::Session(false));
    assert!(matches!(state.step(), LoginStep::AskEmail));
    let state = login_command(state, LoginInput::Text(text("me@example.com")));
    assert!(matches!(
        state.step(),
        LoginStep::Call(ProviderCall::InitiateAuth { username, confirmed_session: None }) if username == "me@example.com"
    ));
    let state = login_command(state, LoginInput::Reply(Ok(reply(Some(Challenge::EmailOtp), Some("s1"), false))));
    assert!(matches!(state.step(), LoginStep::AskCode));
    let state = login_command(state, LoginInput::Text(text("123456")));
    assert!(matches!(
        state.step(),
        LoginStep::Call(ProviderCall::RespondToChallenge { username, code, session })
            if username == "me@example.com" && code == "123456" && session == "s1"
    ));
    let state = login_command(state, LoginInput::Reply(Ok(reply(None, None, true))));
    assert!(matches!(state.step(), LoginStep::Save(tokens) if tokens == credential()));
    let state = login_command(state, LoginInput::Saved(true));
    assert!(matches!(state.step(), LoginStep::Finish(LoginOutcome::LoggedIn)));
}

#[test]
fn login_of_a_new_user() {
    let state = login_command(Login::new(), LoginInput::Session(false));
    let state = login_command(state, LoginInput::Text(text("new@example.com")));
    let state =
        login_command(state, LoginInput::Reply(Ok(reply(Some(Challenge::SelectChallenge), None, false))));
    assert!(matches!(
        state.step(),
        LoginStep::Call(ProviderCall::SignUp { username }) if username == "new@example.com"
    ));
    let state = login_command(state, LoginInput::Reply(Ok(reply(None, Some("s1"), false))));
    assert!(matches!(state.step(), LoginStep::AskCode));
    let state = login_command(state, LoginInput::Text(text("654321")));
    assert!(matches!(
        state.step(),
        LoginStep::Call(ProviderCall::ConfirmSignUp { username, code, session })
            if username == "new@example.com" && code == "654321" && session == "s1"
    ));
    let state = login_command(state, LoginInput::Reply(Ok(reply(None, Some("s2"), false))));
    assert!(matches!(
        state.step(),
        LoginStep::Call(ProviderCall::InitiateAuth { username, confirmed_session: Some(session) })
            if username == "new@example.com" && session == "s2"
    ));
    let state = login_command(state, LoginInput::Reply(Ok(reply(None, None, true))));
    assert!(matches!(state.step(), LoginStep::Save(tokens) if tokens == credential()));
    let state = login_command(state, LoginInput::Saved(false));
    assert!(matches!(state.step(), LoginStep::Finish(LoginOutcome::Failed(LoginError::NotPersisted))));
}

#[test]
fn login_with_a_wrong_code_stores_nothing() {
    let state = login_command(Login::new(), LoginInput::Session(false));
    let state = login_command(state, LoginInput::Text(text("me@example.com")));
    let state = login_command(state, LoginInput::Reply(Ok(reply(Some(Challenge::EmailOtp), Some("s1"), false))));
    let state = login_command(state, LoginInput::Text(text("000000")));
    let state = login_command(state, LoginInput::Reply(Err(ProviderFailure::Rejected)));
    assert!(matches!(
        state.step(),
        LoginStep::Finish(LoginOutcome::Failed(LoginError::Negotiation(AuthFailure::AuthError)))
    ));
    let state = login_command(state, LoginInput::Saved(true));
    assert!(matches!(
        state.step(),
        LoginStep::Finish(LoginOutcome::Failed(LoginError::Negotiation(AuthFailure::AuthError)))
    ));
}

#[test]
fn login_out_of_turn() {
    let state = login_command(Login::new(), LoginInput::Text(text("me@example.com")));
    assert!(matches!(state.step(), LoginStep::Finish(LoginOutcome::Failed(LoginError::OutOfTurn))));
    let state = login_command(Login::new(), LoginInput::Session(false));
    let state = login_command(state, LoginInput::Text(text("me@example.com")));
    let state = login_command(state, LoginInput::Reply(Err(ProviderFailure::Transport)));
    assert!(matches!(
        state.step(),
        LoginStep::Finish(LoginOutcome::Failed(LoginError::Negotiation(AuthFailure::TransportError)))
    ));
}

#[test]
fn logout_from_this_device() {
    let state = Logout::new(false);
    assert!(matches!(state.step(), LogoutStep::LoadCredential));
    let state = logout_command(state, LogoutInput::Credential(Some(credential())));
    assert!(matches!(
        state.step(),
        LogoutStep::Call(ProviderCall::RevokeToken { token }) if token == "refresh"
    ));
    let state = logout_command(state, LogoutInput::Reply(Ok(reply(None, None, false))));
    assert!(matches!(state.step(), LogoutStep::DeleteCredential));
    let state = logout_command(state, LogoutInput::Deleted(false));
    assert!(matches!(state.step(), LogoutStep::Finish(Ok(Scope::ThisDevice))));
}

#[test]
fn logout_from_all_devices() {
    let state = logout_command(Logout::new(true), LogoutInput::Credential(Some(credential())));
    assert!(matches!(
        state.step(),
        LogoutStep::Call(ProviderCall::GlobalSignOut { access_token }) if access_token == "access"
    ));
    let state = logout_command(state, LogoutInput::Reply(Ok(reply(None, None, false))));
    let state = logout_command(state, LogoutInput::Deleted(true));
    assert!(matches!(state.step(), LogoutStep::Finish(Ok(Scope::AllDevices))));
}

#[test]
fn logout_without_a_credential() {
    let state = logout_command(Logout::new(false), LogoutInput::Credential(None));
    assert!(matches!(state.step(), LogoutStep::Finish(Err(LogoutError::NotLoggedIn))));
}

#[test]
fn refused_logout_keeps_the_credential() {
    let state = logout_command(Logout::new(false), LogoutInput::Credential(Some(credential())));
    let state = logout_command(state, LogoutInput::Reply(Err(ProviderFailure::Rejected)));
    assert!(matches!(
        state.step(),
        LogoutStep::Finish(Err(LogoutError::Provider(AuthFailure::AuthError)))
    ));
    let state = logout_command(Logout::new(true), LogoutInput::Deleted(true));
    assert!(matches!(state.step(), LogoutStep::Finish(Err(LogoutError::OutOfTurn))));
}

#[test]
fn join_words_puts_the_separator_between() {
    assert_eq!(join_words(&words(&[]), " "), "");
    assert_eq!(join_words(&words(&["one"]), " "), "one");
    assert_eq!(join_words(&words(&["one", "two", "three"]), " "), "one two three");
    assert_eq!(join_words(&words(&["", "a", ""]), ", "), ", a, ");
}

#[test]
fn profile_lines_that_name_the_binary_go() {
    assert!(!keeps_line("export PATH=\"$HOME/.local/bin:$PATH\" # imp"));
    assert!(keeps_line("export PATH=\"$HOME/.local/bin:$PATH\""));
    assert!(keeps_line("alias i=imp"));
    assert!(!keeps_line("imp.local/bin"));
    assert!(keeps_line(""));
    let lines = words(&[
        "# profile",
        "export PATH=\"$HOME/.local/bin:$PATH\" # added by imp",
        "alias ll='ls -l'",
        "source ~/.local/bin/imp-completion",
        "export EDITOR=vim",
    ]);
    assert_eq!(
        remove_path_from_file(&lines),
        words(&["# profile", "alias ll='ls -l'", "export EDITOR=vim"])
    );
    assert_eq!(remove_path_from_file(&words(&[])), words(&[]));
}

#[test]
fn uninstall_elsewhere() {
    let plan = uninstall_command(false, Some("/home/me"));
    assert_eq!(plan.binary, "/home/me/.local/bin/imp");
    assert_eq!(plan.directory, None);
    assert_eq!(plan.profiles, words(&["/home/me/.bashrc", "/home/me/.zshrc"]));
    assert!(plan.path_update.is_none());
    let plan = uninstall_command(false, None);
    assert_eq!(plan.binary, "./.local/bin/imp");
    assert_eq!(plan.profiles, words(&["./.bashrc", "./.zshrc"]));
}

#[test]
fn uninstall_on_windows() {
    let plan = uninstall_command(true, Some(r"C:\Users\me\AppData\Local"));
    assert_eq!(plan.binary, r"C:\Users\me\AppData\Local\imp\imp.exe");
    assert_eq!(plan.directory.as_deref(), Some(r"C:\Users\me\AppData\Local\imp"));
    assert!(plan.profiles.is_empty());
    let update = plan.path_update.unwrap();
    assert_eq!(update.program, "powershell");
    assert_eq!(update.args.len(), 3);
    assert_eq!(update.args[0], "-NoProfile");
    assert_eq!(update.args[1], "-Command");
    assert_eq!(
        update.args[2],
        format!(
            r#"
        $p = [Environment]::GetEnvironmentVariable('Path','User')
        $new = ($p -split ';' | Where-Object {{ $_ -ne '{}' }}) -join ';'
        [Environment]::SetEnvironmentVariable('Path',$new,'User')
        "#,
            r"C:\Users\me\AppData\Local\imp"
        )
    );
    assert_eq!(uninstall_command(true, None).binary, r".\imp\imp.exe");
}

#[test]
fn project_directory() {
    assert_eq!(get_project_dir(Some("/home/me")), "/home/me/projects/imp");
    assert_eq!(get_project_dir(None), "./projects/imp");
}

#[test]
fn meta_commands() {
    let plan = handle_meta(MetaCommands::Edit, Some("/home/me"));
    assert_eq!(plan.directory, "/home/me/projects/imp");
    assert_eq!(plan.steps.iter().map(line).collect::<Vec<_>>(), vec![words(&["nvim", "src/main.rs"])]);
    assert!(plan.fallback.is_none());
    let plan = handle_meta(MetaCommands::Install, None);
    assert_eq!(plan.directory, "./projects/imp");
    assert_eq!(
        plan.steps.iter().map(line).collect::<Vec<_>>(),
        vec![words(&["cargo", "install", "--path", "."])]
    );
    assert!(plan.fallback.is_none());
    let plan = handle_meta(MetaCommands::Commit { message: text("fix the thing") }, Some("/h"));
    assert_eq!(
        plan.steps.iter().map(line).collect::<Vec<_>>(),
        vec![
            words(&["git", "add", "."]),
            words(&["git", "commit", "-m", "fix the thing"]),
            words(&["git", "push"])
        ]
    );
    assert_eq!(
        line(&plan.fallback.unwrap()),
        words(&["git", "push", "--set-upstream", "origin", "HEAD"])
    );
}

#[test]
fn shell_commands() {
    let response = handle_app(AppCommands::Plan { goal: words(&["ship", "it", "today"]) }, None);
    assert!(matches!(response, AppResponse::Say(line) if line == "Creating plan: ship it today"));
    let response = handle_app(AppCommands::Plan { goal: vec![] }, None);
    assert!(matches!(response, AppResponse::Say(line) if line == "Creating plan: "));
    assert!(matches!(handle_app(AppCommands::Analyze, None), AppResponse::Say(line) if line == "Analyzing..."));
    assert!(matches!(handle_app(AppCommands::View, None), AppResponse::Say(line) if line == "Viewing history..."));
    let response = handle_app(AppCommands::Uninstall, Some("/home/me"));
    assert!(matches!(response, AppResponse::Uninstall(plan) if plan.binary == "/home/me/.local/bin/imp"));
}

#[test]
fn numbers_are_read_as_the_standard_library_reads_them() {
    assert_eq!(parse_number("0"), Some(0));
    assert_eq!(parse_number("7"), Some(7));
    assert_eq!(parse_number("+7"), Some(7));
    assert_eq!(parse_number("007"), Some(7));
    assert_eq!(parse_number("18446744073709551615"), Some(u64::MAX));
    assert_eq!(parse_number("18446744073709551616"), None);
    assert_eq!(parse_number("99999999999999999999999"), None);
    assert_eq!(parse_number(""), None);
    assert_eq!(parse_number("+"), None);
    assert_eq!(parse_number("++1"), None);
    assert_eq!(parse_number("-1"), None);
    assert_eq!(parse_number("1 "), None);
    assert_eq!(parse_number("1a"), None);
    assert_eq!(parse_number("１"), None);
    for text in ["", "+", "0", "+0", "12", "+12", "1+2", "a", "4294967296", "18446744073709551615",
        "18446744073709551616", "184467440737095516150", "0000000000000000000000001", "3.5", "٣"]
    {
        assert_eq!(parse_number(text), text.parse::<u64>().ok(), "{text:?}");
    }
}

#[test]
fn answers_to_a_confirmation() {
    let choices = words(&["yes", "no", ""]);
    assert!(matches!(confirm_command("0", &choices), Answer::AskCustom));
    assert!(matches!(confirm_command("1", &choices), Answer::Respond(text) if text == "yes"));
    assert!(matches!(confirm_command("2", &choices), Answer::Respond(text) if text == "no"));
    assert!(matches!(confirm_command("3", &choices), Answer::Empty));
    assert!(matches!(confirm_command("4", &choices), Answer::Invalid));
    assert!(matches!(confirm_command("18446744073709551615", &choices), Answer::Invalid));
    assert!(matches!(confirm_command("maybe", &choices), Answer::Respond(text) if text == "maybe"));
    assert!(matches!(confirm_command("-1", &choices), Answer::Respond(text) if text == "-1"));
    assert!(matches!(confirm_command("", &choices), Answer::Empty));
    assert!(matches!(confirm_command("1", &words(&[])), Answer::Invalid));
    assert!(matches!(custom_response(text("")), Answer::Empty));
    assert!(matches!(custom_response(text("later")), Answer::Respond(text) if text == "later"));
}

#[test]
fn log_entries_hold_a_space() {
    assert_eq!(log_command(&words(&["ran 5 km", "ignored"])), Ok(&text("ran 5 km")));
    assert_eq!(log_command(&words(&["status"])), Err(LogError::InvalidLogCommand));
    assert_eq!(log_command(&words(&["status", "with space after"])), Err(LogError::InvalidLogCommand));
    assert_eq!(log_command(&words(&[])), Err(LogError::InvalidLogCommand));
    assert_eq!(log_command(&words(&[" "])), Ok(&text(" ")));
}

#[test]
fn update_runs_the_installer() {
    assert_eq!(
        line(&update_command(false)),
        words(&["sh", "-c", "curl -fsSL https://api.iepok.com/imp/install | sh"])
    );
    assert_eq!(
        line(&update_command(true)),
        words(&["powershell", "-Command", "irm https://api.iepok.com/imp/install.ps1 | iex"])
    );
}

fn pok(log_id: u128, topic: &str, dimension: Option<&str>, value: &str) -> Pok {
    Pok {
        id: 1,
        log_id,
        topic: text(topic),
        operator: text("="),
        value: text(value),
        dimension: dimension.map(text),
        timestamp: 0,
    }
}

#[test]
fn measurement_lines() {
    assert_eq!(pok_line(&pok(1, "run", Some("distance"), "5 km")), "run (distance): 5 km");
    assert_eq!(pok_line(&pok(1, "mood", None, "good")), "mood: good");
    assert_eq!(pok_line(&pok(1, "", Some(""), "")), " (): ");
}

#[test]
fn measurements_are_shown_under_their_log() {
    let poks = vec![
        pok(7, "run", Some("distance"), "5 km"),
        pok(8, "mood", None, "good"),
        pok(7, "run", Some("time"), "30 min"),
        pok(u128::MAX, "sleep", None, "8 h"),
    ];
    assert_eq!(view_command(7, &poks), words(&["run (distance): 5 km", "run (time): 30 min"]));
    assert_eq!(view_command(8, &poks), words(&["mood: good"]));
    assert_eq!(view_command(u128::MAX, &poks), words(&["sleep: 8 h"]));
    assert_eq!(view_command(9, &poks), words(&[]));
    assert_eq!(view_command(7, &vec![]), words(&[]));
}

#[test]
fn plan_text_is_the_goal() {
    assert_eq!(plan_command(&words(&["write", "the", "report"])), "write the report");
    assert_eq!(plan_command(&words(&["-x", "--y"])), "-x --y");
    assert_eq!(plan_command(&words(&[])), "");
}

#[test]
fn file_names() {
    assert_eq!(CONFIG_DIRECTORY, "imp");
    assert_eq!(TOKENS_FILE, "tokens.json");
    assert_eq!(JWKS_FILE, "jwks.json");
}
