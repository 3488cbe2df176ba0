use normpath::PathExt;
use rocket_sass_fairing::config::{Setting, SettingKey};
use rocket_sass_fairing::error::StartupError;
use rocket_sass_fairing::ignition::{Action, Event, Ignition, OutputStyle};
use rocket_sass_fairing::sheet::{Header, SassSheet};

fn compressed(source: &str) -> Result<String, String> {
    let options = grass::Options::default().style(grass::OutputStyle::Compressed);
    grass::from_string(source.to_string(), &options).map_err(|e| e.to_string())
}

fn text(s: &str) -> String {
    s.to_string()
}

fn header(name: &str, value: &str) -> Header {
    Header { name: text(name), value: text(value) }
}

/// Drives a startup through its four pieces of work and gives where it ends.
fn started(
    path: Setting<String>,
    normalized: Result<String, String>,
    compiled: Result<String, String>,
    max_age: Setting<u32>,
) -> (Ignition, Action) {
    let ignition = Ignition::new();
    let (ignition, _) = ignition.step(Event::SheetPath(path));
    let (ignition, _) = ignition.step(Event::Normalized(normalized));
    let (ignition, _) = ignition.step(Event::Compiled(compiled));
    ignition.step(Event::MaxAge(max_age))
}

#[test]
fn new_startup_asks_for_the_sheet_path() {
    let ignition = Ignition::new();
    assert_eq!(ignition.pending(), Action::ReadSetting { key: SettingKey::SheetPath });
    assert!(ignition.retrieve().is_none());
    assert!(ignition.failure().is_none());
}

#[test]
fn work_is_asked_for_in_order() {
    let ignition = Ignition::new();
    let (ignition, action) = ignition.step(Event::SheetPath(Setting::Present(text("css/site.scss"))));
    assert_eq!(action, Action::Normalize { relative: text("css/site.scss") });
    assert!(ignition.retrieve().is_none());

    let (ignition, action) = ignition.step(Event::Normalized(Ok(text("/srv/css/site.scss"))));
    assert_eq!(
        action,
        Action::Compile {
            path: text("/srv/css/site.scss"),
            style: OutputStyle::Compressed,
            notice: text("Compiling sass... file /srv/css/site.scss"),
        }
    );
    assert!(ignition.retrieve().is_none());

    let (ignition, action) = ignition.step(Event::Compiled(Ok(text("a{b:c}"))));
    assert_eq!(action, Action::ReadSetting { key: SettingKey::MaxAge });
    assert!(ignition.retrieve().is_none());

    let (ignition, action) = ignition.step(Event::MaxAge(Setting::Present(60)));
    assert_eq!(action, Action::Serve);
    assert_eq!(
        ignition.retrieve(),
        Some(&SassSheet::new(text("a{b:c}"), 60, text("/srv/css/site.scss")))
    );
    assert!(ignition.failure().is_none());
}

#[test]
fn unconfigured_startup_serves_compiled_sheet() {
    let compiled = compressed("a { b: a b; }");
    assert_eq!(compiled, Ok(text("a{b:a b}")));

    let ignition = Ignition::new();
    let (ignition, action) = ignition.step(Event::SheetPath(Setting::Missing));
    assert_eq!(action, Action::Normalize { relative: text("assets/style.scss") });
    let (ignition, _) = ignition.step(Event::Normalized(Ok(text("/srv/assets/style.scss"))));
    let (ignition, _) = ignition.step(Event::Compiled(compiled));
    let (ignition, action) = ignition.step(Event::MaxAge(Setting::Missing));
    assert_eq!(action, Action::Serve);

    let sheet = ignition.retrieve().expect("a published sheet");
    assert_eq!(sheet.content(), "a{b:a b}");
    assert_eq!(sheet.cache_max_age(), 86400);
    assert_eq!(sheet.path(), "/srv/assets/style.scss");

    let response = sheet.render();
    assert_eq!(response.status, 200);
    assert_eq!(
        response.headers,
        vec![
            header("Content-Type", "text/css; charset=utf-8"),
            header("Cache-Control", "max-age=86400"),
        ]
    );
    assert_eq!(response.body, "a{b:a b}");
}

#[test]
fn configured_max_age_goes_into_the_header() {
    let (ignition, action) = started(
        Setting::Missing,
        Ok(text("/srv/assets/style.scss")),
        Ok(text("a{b:c}")),
        Setting::Present(3600),
    );
    assert_eq!(action, Action::Serve);
    let sheet = ignition.retrieve().expect("a published sheet");
    assert_eq!(sheet.cache_max_age(), 3600);
    assert_eq!(sheet.cache_control(), "max-age=3600");
    assert_eq!(sheet.render().headers[1], header("Cache-Control", "max-age=3600"));
}

#[test]
fn nonexistent_path_aborts_startup() {
    let relative = "no/such/dir/missing.scss";
    let normalized = std::path::Path::new(relative)
        .normalize()
        .map(|p| p.into_path_buf().to_string_lossy().into_owned())
        .map_err(|e| e.to_string());
    assert!(normalized.is_err());
    let reason = normalized.clone().unwrap_err();

    let ignition = Ignition::new();
    let (ignition, _) = ignition.step(Event::SheetPath(Setting::Present(text(relative))));
    let (ignition, action) = ignition.step(Event::Normalized(normalized));
    let error = StartupError::NotFound { path: text(relative), reason: reason.clone() };
    assert_eq!(action, Action::Abort { error: error.clone() });
    assert_eq!(ignition.failure(), Some(&error));
    assert!(ignition.retrieve().is_none());
    assert!(error.message().contains(relative));
    assert_eq!(
        error.message(),
        format!("Invalid sass sheet file 'no/such/dir/missing.scss': {}.", reason)
    );

    // Nothing that follows brings a sheet: not even a compiler's success.
    let (ignition, action) = ignition.step(Event::Compiled(Ok(text("a{b:c}"))));
    assert_eq!(action, Action::Abort { error: error.clone() });
    let (ignition, action) = ignition.step(Event::MaxAge(Setting::Present(60)));
    assert_eq!(action, Action::Abort { error });
    assert!(ignition.retrieve().is_none());
}

#[test]
fn missing_default_path_names_the_default() {
    let (ignition, action) = started(
        Setting::Missing,
        Err(text("No such file or directory (os error 2)")),
        Ok(text("a{b:c}")),
        Setting::Missing,
    );
    let error = StartupError::NotFound {
        path: text("assets/style.scss"),
        reason: text("No such file or directory (os error 2)"),
    };
    assert_eq!(action, Action::Abort { error: error.clone() });
    assert_eq!(ignition.failure(), Some(&error));
    assert!(ignition.retrieve().is_none());
    assert_eq!(
        error.message(),
        "Invalid sass sheet file 'assets/style.scss': No such file or directory (os error 2)."
    );
}

#[test]
fn invalid_source_keeps_the_diagnostic() {
    let compiled = compressed("a { b: ; ");
    assert!(compiled.is_err());
    let diagnostic = compiled.clone().unwrap_err();
    assert!(!diagnostic.is_empty());

    let (ignition, action) = started(
        Setting::Missing,
        Ok(text("/srv/assets/style.scss")),
        compiled,
        Setting::Present(60),
    );
    let error = StartupError::Compile { diagnostic: diagnostic.clone() };
    assert_eq!(action, Action::Abort { error: error.clone() });
    assert_eq!(ignition.failure(), Some(&error));
    assert!(ignition.retrieve().is_none());
    assert_eq!(error.message(), format!("Couldn't compile sass: {}", diagnostic));
    assert!(error.message().ends_with(&diagnostic));
}

#[test]
fn malformed_path_setting_aborts_at_once() {
    let ignition = Ignition::new();
    let (ignition, action) =
        ignition.step(Event::SheetPath(Setting::Malformed(text("invalid type: found bool true"))));
    let error = StartupError::ConfigShape {
        key: SettingKey::SheetPath,
        detail: text("invalid type: found bool true"),
    };
    assert_eq!(action, Action::Abort { error: error.clone() });
    assert_eq!(ignition.failure(), Some(&error));
    assert!(ignition.retrieve().is_none());
    assert_eq!(
        error.message(),
        "Invalid setting 'sheet_path': invalid type: found bool true."
    );
}

#[test]
fn malformed_max_age_aborts_after_compiling() {
    let (ignition, action) = started(
        Setting::Present(text("style.scss")),
        Ok(text("/srv/style.scss")),
        Ok(text("a{b:c}")),
        Setting::Malformed(text("invalid type: found string \"soon\"")),
    );
    let error = StartupError::ConfigShape {
        key: SettingKey::MaxAge,
        detail: text("invalid type: found string \"soon\""),
    };
    assert_eq!(action, Action::Abort { error: error.clone() });
    assert_eq!(ignition.failure(), Some(&error));
    assert!(ignition.retrieve().is_none());
    assert_eq!(
        error.message(),
        "Invalid setting 'assets_max_age': invalid type: found string \"soon\"."
    );
}

#[test]
fn first_failure_wins() {
    // A malformed path is reported even where everything later would fail too.
    let (ignition, _) = started(
        Setting::Malformed(text("not a path")),
        Err(text("gone")),
        Err(text("broken")),
        Setting::Malformed(text("not a number")),
    );
    assert_eq!(
        ignition.failure(),
        Some(&StartupError::ConfigShape { key: SettingKey::SheetPath, detail: text("not a path") })
    );

    let (ignition, _) = started(
        Setting::Missing,
        Err(text("gone")),
        Err(text("broken")),
        Setting::Malformed(text("not a number")),
    );
    assert_eq!(
        ignition.failure(),
        Some(&StartupError::NotFound { path: text("assets/style.scss"), reason: text("gone") })
    );

    let (ignition, _) = started(
        Setting::Missing,
        Ok(text("/srv/assets/style.scss")),
        Err(text("broken")),
        Setting::Malformed(text("not a number")),
    );
    assert_eq!(ignition.failure(), Some(&StartupError::Compile { diagnostic: text("broken") }));
}

#[test]
fn defaults_apply_each_on_its_own() {
    // Path missing, lifetime given.
    let (ignition, _) = started(
        Setting::Missing,
        Ok(text("/srv/assets/style.scss")),
        Ok(text("a{b:c}")),
        Setting::Present(3600),
    );
    let sheet = ignition.retrieve().expect("a published sheet");
    assert_eq!(sheet.cache_max_age(), 3600);
    assert_eq!(sheet.path(), "/srv/assets/style.scss");

    // Path given, lifetime missing.
    let ignition = Ignition::new();
    let (ignition, action) = ignition.step(Event::SheetPath(Setting::Present(text("site.scss"))));
    assert_eq!(action, Action::Normalize { relative: text("site.scss") });
    let (ignition, _) = ignition.step(Event::Normalized(Ok(text("/srv/site.scss"))));
    let (ignition, _) = ignition.step(Event::Compiled(Ok(text("a{b:c}"))));
    let (ignition, _) = ignition.step(Event::MaxAge(Setting::Missing));
    let sheet = ignition.retrieve().expect("a published sheet");
    assert_eq!(sheet.cache_max_age(), 86400);
    assert_eq!(sheet.path(), "/srv/site.scss");
}

#[test]
fn published_sheet_never_changes() {
    let (ignition, _) = started(
        Setting::Missing,
        Ok(text("/srv/assets/style.scss")),
        Ok(text("a{b:c}")),
        Setting::Present(10),
    );
    let expected = SassSheet::new(text("a{b:c}"), 10, text("/srv/assets/style.scss"));
    assert_eq!(ignition.retrieve(), Some(&expected));

    let (ignition, action) = ignition.step(Event::SheetPath(Setting::Present(text("other.scss"))));
    assert_eq!(action, Action::Serve);
    let (ignition, action) = ignition.step(Event::Normalized(Err(text("gone"))));
    assert_eq!(action, Action::Serve);
    let (ignition, action) = ignition.step(Event::Compiled(Ok(text("x{y:z}"))));
    assert_eq!(action, Action::Serve);
    let (ignition, action) = ignition.step(Event::MaxAge(Setting::Present(99)));
    assert_eq!(action, Action::Serve);
    assert_eq!(ignition.retrieve(), Some(&expected));
    assert_eq!(ignition.retrieve(), Some(&expected));
    assert!(ignition.failure().is_none());
}

#[test]
fn stray_events_change_nothing() {
    let ignition = Ignition::new();
    let (ignition, action) = ignition.step(Event::Compiled(Ok(text("a{b:c}"))));
    assert_eq!(action, Action::ReadSetting { key: SettingKey::SheetPath });
    let (ignition, action) = ignition.step(Event::MaxAge(Setting::Present(5)));
    assert_eq!(action, Action::ReadSetting { key: SettingKey::SheetPath });
    let (ignition, action) = ignition.step(Event::Normalized(Ok(text("/srv/x.scss"))));
    assert_eq!(action, Action::ReadSetting { key: SettingKey::SheetPath });

    let (ignition, _) = ignition.step(Event::SheetPath(Setting::Present(text("x.scss"))));
    let (ignition, action) = ignition.step(Event::SheetPath(Setting::Present(text("y.scss"))));
    assert_eq!(action, Action::Normalize { relative: text("x.scss") });
    let (ignition, action) = ignition.step(Event::Compiled(Ok(text("a{b:c}"))));
    assert_eq!(action, Action::Normalize { relative: text("x.scss") });
    assert!(ignition.retrieve().is_none());
    assert!(ignition.failure().is_none());
}

#[test]
fn empty_sheet_is_published() {
    let compiled = compressed("");
    assert_eq!(compiled, Ok(String::new()));
    let (ignition, action) =
        started(Setting::Missing, Ok(text("/srv/assets/style.scss")), compiled, Setting::Present(0));
    assert_eq!(action, Action::Serve);
    let sheet = ignition.retrieve().expect("a published sheet");
    assert_eq!(sheet.content(), "");
    assert_eq!(sheet.render().body, "");
    assert_eq!(sheet.cache_control(), "max-age=0");
}
