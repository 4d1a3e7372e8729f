use vstd::prelude::*;

use crate::text;
use crate::text::{chars_of, join_path, push_char, push_str};

verus! {

/// The label of the launch agent that starts the program at login.
pub const LAUNCH_AGENT_LABEL: &'static str = "com.cococa.clip";

/// The file name of the launch agent.
pub const LAUNCH_AGENT_FILE_NAME: &'static str = "com.cococa.clip.plist";

/// The property list text before the label. Each quote of its attributes
/// carries a backslash before it, so a strict XML reader rejects the file.
pub const PLIST_HEAD: &'static str = r#"<?xml version=\"1.0\" encoding=\"UTF-8\"?>
<!DOCTYPE plist PUBLIC \"-//Apple//DTD PLIST 1.0//EN\" \"http://www.apple.com/DTDs/PropertyList-1.0.dtd\">
<plist version=\"1.0\">
<dict>
    <key>Label</key>
    <string>"#;

/// The property list text between the label and the executable.
pub const PLIST_MIDDLE: &'static str = r#"</string>
    <key>ProgramArguments</key>
    <array>
        <string>"#;

/// The property list text after the executable.
pub const PLIST_TAIL: &'static str = r#"</string>
    </array>
    <key>RunAtLoad</key>
    <true/>
    <key>KeepAlive</key>
    <false/>
</dict>
</plist>
"#;

/// The escape sequence that stands for `c` in XML text, or `c` itself.
pub open spec fn xml_escaped_char(c: char) -> Seq<char> {
    if c == '&' {
        "&amp;"@
    } else if c == '<' {
        "&lt;"@
    } else if c == '>' {
        "&gt;"@
    } else if c == '"' {
        "&quot;"@
    } else if c == '\'' {
        "&apos;"@
    } else {
        seq![c]
    }
}

/// `s` with each character replaced by its XML escape.
pub open spec fn xml_escaped(s: Seq<char>) -> Seq<char>
    decreases s.len(),
{
    if s.len() == 0 {
        Seq::empty()
    } else {
        xml_escaped(s.drop_last()) + xml_escaped_char(s.last())
    }
}

/// Reading XML text back: each of the entities `&amp;`, `&lt;`, `&gt;`,
/// `&quot;` and `&apos;` stands for its character, read in one pass from
/// the front; any other character stands for itself.
pub open spec fn xml_unescaped(s: Seq<char>) -> Seq<char>
    decreases s.len(),
{
    if s.len() == 0 {
        Seq::empty()
    } else if s.len() >= 5 && s.take(5) == "&amp;"@ {
        seq!['&'] + xml_unescaped(s.skip(5))
    } else if s.len() >= 4 && s.take(4) == "&lt;"@ {
        seq!['<'] + xml_unescaped(s.skip(4))
    } else if s.len() >= 4 && s.take(4) == "&gt;"@ {
        seq!['>'] + xml_unescaped(s.skip(4))
    } else if s.len() >= 6 && s.take(6) == "&quot;"@ {
        seq!['"'] + xml_unescaped(s.skip(6))
    } else if s.len() >= 6 && s.take(6) == "&apos;"@ {
        seq!['\''] + xml_unescaped(s.skip(6))
    } else {
        seq![s[0]] + xml_unescaped(s.skip(1))
    }
}

/// A character that XML escaping replaces.
pub open spec fn xml_special(c: char) -> bool {
    c == '&' || c == '<' || c == '>' || c == '"' || c == '\''
}

/// The launch agent property list that runs `executable` at login.
pub open spec fn launch_agent_plist(executable: Seq<char>) -> Seq<char> {
    PLIST_HEAD@ + xml_escaped(LAUNCH_AGENT_LABEL@) + PLIST_MIDDLE@ + xml_escaped(executable)
        + PLIST_TAIL@
}

/// Where the launch agent lives for the home directory `home`.
pub open spec fn launch_agent_location(home: Seq<char>) -> Seq<char> {
    text::path_joined(
        text::path_joined(text::path_joined(home, "Library"@), "LaunchAgents"@),
        LAUNCH_AGENT_FILE_NAME@,
    )
}

/// `value` with `&`, `<`, `>`, `"` and `'` replaced by XML entities.
pub fn xml_escape(value: &str) -> (r: String)
    ensures
        r@ == xml_escaped(value@),
{
    let v = chars_of(value);
    let mut r = String::new();
    let mut i: usize = 0;
    while i < v.len()
        invariant
            i <= v.len(),
            r@ == xml_escaped(v@.take(i as int)),
        decreases v.len() - i,
    {
        let c = v[i];
        let ghost before = r@;
        if c == '&' {
            push_str(&mut r, "&amp;");
        } else if c == '<' {
            push_str(&mut r, "&lt;");
        } else if c == '>' {
            push_str(&mut r, "&gt;");
        } else if c == '"' {
            push_str(&mut r, "&quot;");
        } else if c == '\'' {
            push_str(&mut r, "&apos;");
        } else {
            push_char(&mut r, c);
        }
        proof {
            assert(v@.take(i + 1).drop_last() =~= v@.take(i as int));
            assert(r@ =~= xml_escaped(v@.take(i + 1)));
        }
        i = i + 1;
    }
    assert(v@.take(v.len() as int) =~= v@);
    r
}

/// The launch agent property list that runs `executable` at login.
pub fn render_launch_agent_plist(executable: &str) -> (r: String)
    ensures
        r@ == launch_agent_plist(executable@),
{
    let escaped = xml_escape(executable);
    let label = xml_escape(LAUNCH_AGENT_LABEL);
    let mut r = String::new();
    push_str(&mut r, PLIST_HEAD);
    push_str(&mut r, label.as_str());
    push_str(&mut r, PLIST_MIDDLE);
    push_str(&mut r, escaped.as_str());
    push_str(&mut r, PLIST_TAIL);
    assert(r@ =~= launch_agent_plist(executable@));
    r
}

/// The path of the launch agent for the home directory `home`.
pub fn launch_agent_path(home: &str) -> (r: String)
    ensures
        r@ == launch_agent_location(home@),
{
    let library = join_path(home, "Library");
    let agents = join_path(library.as_str(), "LaunchAgents");
    join_path(agents.as_str(), LAUNCH_AGENT_FILE_NAME)
}

/// What to do with the launch agent file.
#[derive(Debug, Clone, Copy, PartialEq, Eq, Structural)]
pub enum LaunchAgentAction {
    /// Create the directory and write the property list.
    Write,
    /// Delete the file.
    Remove,
    /// Leave things as they are.
    Keep,
}

/// Turning start at login on writes the agent; turning it off removes the
/// agent where one exists.
pub fn launch_agent_action(enabled: bool, exists: bool) -> (r: LaunchAgentAction)
    ensures
        r == (if enabled {
            LaunchAgentAction::Write
        } else if exists {
            LaunchAgentAction::Remove
        } else {
            LaunchAgentAction::Keep
        }),
{
    if enabled {
        LaunchAgentAction::Write
    } else if exists {
        LaunchAgentAction::Remove
    } else {
        LaunchAgentAction::Keep
    }
}

/// Escaped text holds no `<`, `>`, `"` or `'`, so it cannot close the
/// element it stands in.
pub proof fn lemma_escaped_has_no_markup(s: Seq<char>)
    ensures
        forall|i: int|
            0 <= i < xml_escaped(s).len() ==> {
                let c = #[trigger] xml_escaped(s)[i];
                c != '<' && c != '>' && c != '"' && c != '\''
            },
    decreases s.len(),
{
    reveal_strlit("&amp;");
    reveal_strlit("&lt;");
    reveal_strlit("&gt;");
    reveal_strlit("&quot;");
    reveal_strlit("&apos;");
    if s.len() > 0 {
        lemma_escaped_has_no_markup(s.drop_last());
        let front = xml_escaped(s.drop_last());
        let tail = xml_escaped_char(s.last());
        assert(xml_escaped(s) == front + tail);
        assert forall|i: int| 0 <= i < xml_escaped(s).len() implies {
            let c = #[trigger] xml_escaped(s)[i];
            c != '<' && c != '>' && c != '"' && c != '\''
        } by {
            if i < front.len() {
                assert(xml_escaped(s)[i] == front[i]);
            } else {
                assert(xml_escaped(s)[i] == tail[i - front.len()]);
            }
        }
    }
}

/// Escaping works character by character from the front as well.
proof fn lemma_escaped_front(c: char, t: Seq<char>)
    ensures
        xml_escaped(seq![c] + t) == xml_escaped_char(c) + xml_escaped(t),
    decreases t.len(),
{
    let u = seq![c] + t;
    if t.len() == 0 {
        assert(u.drop_last() =~= Seq::<char>::empty());
        assert(u.last() == c);
        assert(xml_escaped(u.drop_last()) =~= Seq::<char>::empty());
        assert(xml_escaped(t) =~= Seq::<char>::empty());
        assert(xml_escaped(u) =~= xml_escaped_char(c) + xml_escaped(t));
    } else {
        assert(u.drop_last() =~= seq![c] + t.drop_last());
        assert(u.last() == t.last());
        lemma_escaped_front(c, t.drop_last());
        assert(xml_escaped(u) =~= xml_escaped_char(c) + xml_escaped(t));
    }
}

/// Reading escaped text back gives the text that was escaped.
pub proof fn lemma_unescape_escaped(s: Seq<char>)
    ensures
        xml_unescaped(xml_escaped(s)) == s,
    decreases s.len(),
{
    reveal_strlit("&amp;");
    reveal_strlit("&lt;");
    reveal_strlit("&gt;");
    reveal_strlit("&quot;");
    reveal_strlit("&apos;");
    if s.len() > 0 {
        let c = s[0];
        let t = s.skip(1);
        assert(s =~= seq![c] + t);
        lemma_escaped_front(c, t);
        lemma_unescape_escaped(t);
        let e = xml_escaped_char(c);
        let rest = xml_escaped(t);
        let all = e + rest;
        assert(xml_escaped(s) == all);
        assert(all.skip(e.len() as int) =~= rest);
        assert(all.take(e.len() as int) =~= e);
        assert(all[0] == e[0]);
        if c == '&' {
            assert(xml_unescaped(all) == seq!['&'] + xml_unescaped(rest));
        } else if c == '<' {
            assert(all[1] == 'l');
            assert(all.len() >= 5 ==> all.take(5) != "&amp;"@) by {
                if all.len() >= 5 {
                    assert(all.take(5)[1] == 'l');
                }
            }
            assert(xml_unescaped(all) == seq!['<'] + xml_unescaped(rest));
        } else if c == '>' {
            assert(all[1] == 'g');
            assert(all.len() >= 5 ==> all.take(5) != "&amp;"@) by {
                if all.len() >= 5 {
                    assert(all.take(5)[1] == 'g');
                }
            }
            assert(all.len() >= 4 ==> all.take(4) != "&lt;"@) by {
                if all.len() >= 4 {
                    assert(all.take(4)[1] == 'g');
                }
            }
            assert(xml_unescaped(all) == seq!['>'] + xml_unescaped(rest));
        } else if c == '"' {
            assert(all[1] == 'q');
            assert(all.len() >= 5 ==> all.take(5) != "&amp;"@) by {
                if all.len() >= 5 {
                    assert(all.take(5)[1] == 'q');
                }
            }
            assert(all.len() >= 4 ==> all.take(4) != "&lt;"@) by {
                if all.len() >= 4 {
                    assert(all.take(4)[1] == 'q');
                }
            }
            assert(all.len() >= 4 ==> all.take(4) != "&gt;"@) by {
                if all.len() >= 4 {
                    assert(all.take(4)[1] == 'q');
                }
            }
            assert(xml_unescaped(all) == seq!['"'] + xml_unescaped(rest));
        } else if c == '\'' {
            assert(all[1] == 'a' && all[2] == 'p');
            assert(all.len() >= 5 ==> all.take(5) != "&amp;"@) by {
                if all.len() >= 5 {
                    assert(all.take(5)[2] == 'p');
                }
            }
            assert(all.len() >= 4 ==> all.take(4) != "&lt;"@) by {
                if all.len() >= 4 {
                    assert(all.take(4)[1] == 'a');
                }
            }
            assert(all.len() >= 4 ==> all.take(4) != "&gt;"@) by {
                if all.len() >= 4 {
                    assert(all.take(4)[1] == 'a');
                }
            }
            assert(all.len() >= 6 ==> all.take(6) != "&quot;"@) by {
                if all.len() >= 6 {
                    assert(all.take(6)[1] == 'a');
                }
            }
            assert(xml_unescaped(all) == seq!['\''] + xml_unescaped(rest));
        } else {
            assert(e == seq![c]);
            assert(all[0] == c);
            assert(all.len() >= 5 ==> all.take(5) != "&amp;"@) by {
                if all.len() >= 5 {
                    assert(all.take(5)[0] == c);
                }
            }
            assert(all.len() >= 4 ==> all.take(4) != "&lt;"@) by {
                if all.len() >= 4 {
                    assert(all.take(4)[0] == c);
                }
            }
            assert(all.len() >= 4 ==> all.take(4) != "&gt;"@) by {
                if all.len() >= 4 {
                    assert(all.take(4)[0] == c);
                }
            }
            assert(all.len() >= 6 ==> all.take(6) != "&quot;"@) by {
                if all.len() >= 6 {
                    assert(all.take(6)[0] == c);
                }
            }
            assert(all.len() >= 6 ==> all.take(6) != "&apos;"@) by {
                if all.len() >= 6 {
                    assert(all.take(6)[0] == c);
                }
            }
            assert(all.skip(1) =~= rest);
            assert(xml_unescaped(all) == seq![c] + xml_unescaped(rest));
        }
    }
}

/// Text without `&`, `<`, `>`, `"` or `'` is left as it is by escaping.
pub proof fn lemma_escape_keeps_plain_text(s: Seq<char>)
    requires
        forall|i: int| 0 <= i < s.len() ==> !xml_special(#[trigger] s[i]),
    ensures
        xml_escaped(s) == s,
    decreases s.len(),
{
    if s.len() > 0 {
        lemma_escape_keeps_plain_text(s.drop_last());
        assert(!xml_special(s[s.len() - 1]));
        assert(xml_escaped(s) =~= s.drop_last() + seq![s.last()]);
        assert(s.drop_last() + seq![s.last()] =~= s);
    }
}

} // verus!
