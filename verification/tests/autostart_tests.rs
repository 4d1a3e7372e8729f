use cococa_clip::autostart::{
    launch_agent_action, launch_agent_path, render_launch_agent_plist, xml_escape,
    LaunchAgentAction,
};
use cococa_clip::text::join_path;

#[test]
fn xml_escape_replaces_markup() {
    assert_eq!(xml_escape("a<b>&\"'c"), "a&lt;b&gt;&amp;&quot;&apos;c");
    assert_eq!(xml_escape("plain"), "plain");
    assert_eq!(xml_escape("&amp;"), "&amp;amp;");
    assert_eq!(xml_escape(""), "");
}

#[test]
fn launch_agent_plist_runs_the_executable() {
    let plist = render_launch_agent_plist("/Applications/Clip & Co.app/Contents/MacOS/clip");
    let expected = r#"<?xml version=\"1.0\" encoding=\"UTF-8\"?>
<!DOCTYPE plist PUBLIC \"-//Apple//DTD PLIST 1.0//EN\" \"http://www.apple.com/DTDs/PropertyList-1.0.dtd\">
<plist version=\"1.0\">
<dict>
    <key>Label</key>
    <string>com.cococa.clip</string>
    <key>ProgramArguments</key>
    <array>
        <string>/Applications/Clip &amp; Co.app/Contents/MacOS/clip</string>
    </array>
    <key>RunAtLoad</key>
    <true/>
    <key>KeepAlive</key>
    <false/>
</dict>
</plist>
"#;
    assert_eq!(plist, expected);
}

#[test]
fn launch_agent_path_under_home() {
    assert_eq!(
        launch_agent_path("/Users/me"),
        "/Users/me/Library/LaunchAgents/com.cococa.clip.plist"
    );
    assert_eq!(
        launch_agent_path("/Users/me/"),
        "/Users/me/Library/LaunchAgents/com.cococa.clip.plist"
    );
    assert_eq!(launch_agent_path(""), "Library/LaunchAgents/com.cococa.clip.plist");
}

#[test]
fn join_path_matches_pathbuf() {
    for (base, component) in [("/a", "b"), ("/a/", "b"), ("", "b"), ("a", "b c")] {
        let expected = std::path::PathBuf::from(base).join(component);
        assert_eq!(join_path(base, component), expected.to_str().unwrap());
    }
}

#[test]
fn launch_agent_actions() {
    assert_eq!(launch_agent_action(true, false), LaunchAgentAction::Write);
    assert_eq!(launch_agent_action(true, true), LaunchAgentAction::Write);
    assert_eq!(launch_agent_action(false, true), LaunchAgentAction::Remove);
    assert_eq!(launch_agent_action(false, false), LaunchAgentAction::Keep);
}

fn unescape(text: &str) -> String {
    let mut out = String::new();
    let mut rest = text;
    while let Some(c) = rest.chars().next() {
        let mut matched = false;
        for (entity, plain) in
            [("&amp;", '&'), ("&lt;", '<'), ("&gt;", '>'), ("&quot;", '"'), ("&apos;", '\'')]
        {
            if rest.starts_with(entity) {
                out.push(plain);
                rest = &rest[entity.len()..];
                matched = true;
                break;
            }
        }
        if !matched {
            out.push(c);
            rest = &rest[c.len_utf8()..];
        }
    }
    out
}

#[test]
fn escaped_text_reads_back() {
    for value in ["a<b>&\"'c", "&amp;", "&lt;&", "路径/with space", "", "'''", "&&&;"] {
        let escaped = xml_escape(value);
        assert_eq!(unescape(&escaped), value);
        assert!(!escaped.contains(['<', '>', '"', '\'']));
    }
}

#[test]
fn plain_text_is_not_escaped() {
    for value in ["plain", "/Applications/Cococa Clip.app/Contents/MacOS/cococa-clip", "路径", ""] {
        assert_eq!(xml_escape(value), value);
    }
}
