use vstd::prelude::*;
use vstd::string::StringExecFns;

verus! {

/// How loud a notification is.
#[derive(Debug, Clone, Copy, PartialEq, Eq, Structural)]
pub enum NoticeLevel {
    Info,
    Warn,
    Error,
}

/// A notification for the application to show: a title, a body, a
/// level, and how many seconds it stays on screen.
#[derive(Debug, Clone, PartialEq)]
pub struct Notice {
    pub title: String,
    pub content: String,
    pub level: NoticeLevel,
    pub timeout_secs: u64,
}

/// The deprecated paragraph element. It renders nothing of its own any
/// more: its uses are forwarded to the text element, and the first use
/// in a session earns a deprecation notice.
#[derive(Debug, Clone, Copy, PartialEq, Eq, Structural, Default)]
pub struct Paragraph;

/// What the notice names as the place to edit: the plugin file of the
/// named plugin, or the init script when the use came from no plugin.
pub open spec fn notice_subject(id: Option<Seq<char>>) -> Seq<char> {
    match id {
        Some(s) => "`"@ + s + ".yazi` plugin"@,
        None => "`init.lua` config"@,
    }
}

/// The full body of the deprecation notice for the given origin.
pub open spec fn notice_content(id: Option<Seq<char>>) -> Seq<char> {
    "The `ui.Paragraph` and `ui.ListItem` elements have been deprecated.\n\nPlease use the new `ui.Text` instead, in your "@
        + notice_subject(id) + "."@
}

impl Paragraph {
    /// The deprecation notice shown for a use of this element, naming
    /// the plugin it came from (or the init script), at warning level,
    /// on screen for twenty seconds.
    pub fn deprecation_notice(id: Option<&String>) -> (n: Notice)
        ensures
            n.title@ == "Deprecated API"@,
            n.content@ == notice_content(
                match id {
                    Some(s) => Some(s@),
                    None => None,
                },
            ),
            n.level == NoticeLevel::Warn,
            n.timeout_secs == 20,
    {
        let mut content = String::from_str(
            "The `ui.Paragraph` and `ui.ListItem` elements have been deprecated.\n\nPlease use the new `ui.Text` instead, in your ",
        );
        match id {
            Some(s) => {
                content.append("`");
                content.append(s.as_str());
                content.append(".yazi` plugin");
            },
            None => {
                content.append("`init.lua` config");
            },
        }
        content.append(".");
        proof {
            assert(content@ =~= notice_content(
                match id {
                    Some(s) => Some(s@),
                    None => None,
                },
            ));
        }
        Notice {
            title: String::from_str("Deprecated API"),
            content,
            level: NoticeLevel::Warn,
            timeout_secs: 20,
        }
    }
}

/// The once-per-session gate in front of the deprecation notice: the
/// first call raises the notice and latches the flag, every later call
/// is silent. The caller owns the flag and shows the notice.
pub fn warn_deprecated(warned: &mut bool, id: Option<&String>) -> (r: Option<Notice>)
    ensures
        *final(warned),
        *old(warned) ==> r is None,
        !*old(warned) ==> (r matches Some(n) && n.title@ == "Deprecated API"@ && n.content@
            == notice_content(
            match id {
                Some(s) => Some(s@),
                None => None,
            },
        ) && n.level == NoticeLevel::Warn && n.timeout_secs == 20),
{
    if *warned {
        None
    } else {
        *warned = true;
        Some(Paragraph::deprecation_notice(id))
    }
}

} // verus!
