//! Composition of the report mails the application can send: the subject
//! line and heading for each kind of report, and the body assembled from
//! what the reporter typed. Connecting to the mail server and sending is
//! the caller's business.

use vstd::prelude::*;
use vstd::string::StrSliceExecFns;
use vstd::string::StringExecFns;

verus! {

/// The kind of report a mail carries, with its description.
#[derive(Debug)]
pub enum MessageKind {
    Bug(String),
    Feedback(String),
    Support(String),
    Panic((String, String)),
    Unknown,
}

/// The build identity stamped into every mail heading.
#[derive(Clone, Debug)]
pub struct BuildInfo {
    pub app_version: String,
    pub git_branch: String,
    pub git_commit: String,
    pub target_triple: String,
    pub llvm_version: String,
}

/// The subject line of a report: its kind's tag, then its description.
pub open spec fn spec_subject(k: MessageKind) -> Seq<char> {
    match k {
        MessageKind::Bug(d) => "[BUG]: "@ + d@,
        MessageKind::Feedback(d) => "[FEEDBACK]: "@ + d@,
        MessageKind::Support(d) => "[SUPPORT]: "@ + d@,
        MessageKind::Panic(p) => "[PANIC]: "@ + p.0@,
        MessageKind::Unknown => "[UNKNOWN]"@,
    }
}

/// The heading of a report mail: the subject as a headline, then the build
/// identity block.
pub open spec fn spec_heading(k: MessageKind, info: BuildInfo) -> Seq<char> {
    "<h3>"@ + spec_subject(k) + "</h3><h4>DTB Kampfrichtereinsatzpl\u{e4}ne v"@
        + info.app_version@ + "</h4><p>[COMMIT]: "@ + info.git_branch@ + "-"@ + info.git_commit@
        + "<br />[TARGET_TRIPLE]: "@ + info.target_triple@ + "<br />[LLVM]: LLVM "@
        + info.llvm_version@ + "<br /></p>"@
}

impl MessageKind {
    /// The subject line of this report.
    pub fn generate_subject(&self) -> (r: String)
        ensures
            r@ == spec_subject(*self),
    {
        match self {
            MessageKind::Bug(d) => {
                let mut s = "[BUG]: ".to_owned();
                s.append(d.as_str());
                s
            },
            MessageKind::Feedback(d) => {
                let mut s = "[FEEDBACK]: ".to_owned();
                s.append(d.as_str());
                s
            },
            MessageKind::Support(d) => {
                let mut s = "[SUPPORT]: ".to_owned();
                s.append(d.as_str());
                s
            },
            MessageKind::Panic(p) => {
                let mut s = "[PANIC]: ".to_owned();
                s.append(p.0.as_str());
                s
            },
            MessageKind::Unknown => "[UNKNOWN]".to_owned(),
        }
    }

    /// The heading of this report's mail, stamped with the given build.
    pub fn generate_mail_heading(&self, info: &BuildInfo) -> (r: String)
        ensures
            r@ == spec_heading(*self, *info),
    {
        let mut s = "<h3>".to_owned();
        let subject = self.generate_subject();
        s.append(subject.as_str());
        s.append("</h3><h4>DTB Kampfrichtereinsatzpl\u{e4}ne v");
        s.append(info.app_version.as_str());
        s.append("</h4><p>[COMMIT]: ");
        s.append(info.git_branch.as_str());
        s.append("-");
        s.append(info.git_commit.as_str());
        s.append("<br />[TARGET_TRIPLE]: ");
        s.append(info.target_triple.as_str());
        s.append("<br />[LLVM]: LLVM ");
        s.append(info.llvm_version.as_str());
        s.append("<br /></p>");
        s
    }
}

/// The reporter's text with every line break turned into an HTML break.
pub open spec fn br_escaped(s: Seq<char>) -> Seq<char>
    decreases s.len(),
{
    if s.len() == 0 {
        Seq::empty()
    } else if s[0] == '\n' {
        "<br />"@ + br_escaped(s.drop_first())
    } else {
        seq![s[0]] + br_escaped(s.drop_first())
    }
}

proof fn lemma_br_escaped_push(s: Seq<char>, c: char)
    ensures
        br_escaped(s.push(c)) == br_escaped(s) + (if c == '\n' {
            "<br />"@
        } else {
            seq![c]
        }),
    decreases s.len(),
{
    let tail: Seq<char> = if c == '\n' { "<br />"@ } else { seq![c] };
    if s.len() == 0 {
        assert(s.push(c).drop_first() =~= Seq::<char>::empty());
        assert(s.push(c)[0] == c);
        assert(br_escaped(Seq::<char>::empty()) == Seq::<char>::empty());
        assert(br_escaped(s.push(c)) == tail + Seq::<char>::empty());
        assert(tail + Seq::<char>::empty() =~= tail);
        assert(br_escaped(s) + tail =~= tail);
    } else {
        assert(s.push(c)[0] == s[0]);
        assert(s.push(c).drop_first() =~= s.drop_first().push(c));
        lemma_br_escaped_push(s.drop_first(), c);
        assert(br_escaped(s.push(c)) =~= br_escaped(s) + tail);
    }
}

/// The full body of a report mail as the front end sends it off: a divider,
/// the reporter's name and address when given, then the message with its
/// line breaks turned into HTML breaks.
pub open spec fn spec_report_body(
    name: Option<Seq<char>>,
    mail: Option<Seq<char>>,
    message: Seq<char>,
) -> Seq<char> {
    match (name, mail) {
        (Some(n), Some(m)) => "<p>---------<br /><b>"@ + n + "</b><br /><i>"@ + m
            + "</i><br /><br />"@ + br_escaped(message) + "</p>"@,
        (Some(n), None) => "<p>---------<br /><b>"@ + n + "</b><br /><br />"@ + br_escaped(
            message,
        ) + "</p>"@,
        (None, Some(m)) => "<p><---------<br /><i>"@ + m + "</i><br /><br />"@ + br_escaped(
            message,
        ) + "</p>"@,
        (None, None) => "<p>---------<br />"@ + br_escaped(message) + "</p>"@,
    }
}

/// Append the reporter's text, line breaks turned into HTML breaks.
fn push_br_escaped(out: &mut String, message: &str)
    ensures
        final(out)@ == old(out)@ + br_escaped(message@),
{
    let n = message.unicode_len();
    let mut i: usize = 0;
    while i < n
        invariant
            n == message@.len(),
            i <= n,
            out@ == old(out)@ + br_escaped(message@.take(i as int)),
        decreases n - i,
    {
        let c = message.get_char(i);
        proof {
            assert(message@.take(i as int).push(message@[i as int]) =~= message@.take(i + 1));
            lemma_br_escaped_push(message@.take(i as int), message@[i as int]);
        }
        if c == '\n' {
            out.append("<br />");
        } else {
            out.push(c);
        }
        i = i + 1;
    }
    proof {
        assert(message@.take(n as int) =~= message@);
    }
}

/// Build the body of a report mail from what the reporter gave.
pub fn compose_report_body(name: Option<String>, mail: Option<String>, message: String) -> (r:
    String)
    ensures
        r@ == spec_report_body(
            match name {
                Some(n) => Some(n@),
                None => None,
            },
            match mail {
                Some(m) => Some(m@),
                None => None,
            },
            message@,
        ),
{
    let mut s: String;
    match (&name, &mail) {
        (Some(n), Some(m)) => {
            s = "<p>---------<br /><b>".to_owned();
            s.append(n.as_str());
            s.append("</b><br /><i>");
            s.append(m.as_str());
            s.append("</i><br /><br />");
        },
        (Some(n), None) => {
            s = "<p>---------<br /><b>".to_owned();
            s.append(n.as_str());
            s.append("</b><br /><br />");
        },
        (None, Some(m)) => {
            s = "<p><---------<br /><i>".to_owned();
            s.append(m.as_str());
            s.append("</i><br /><br />");
        },
        (None, None) => {
            s = "<p>---------<br />".to_owned();
        },
    }
    push_br_escaped(&mut s, message.as_str());
    s.append("</p>");
    s
}

/// A needle standing somewhere inside a haystack.
pub open spec fn contains_seq(h: Seq<char>, n: Seq<char>) -> bool {
    exists|i: int| 0 <= i <= h.len() - n.len() && #[trigger] h.subrange(i, i + n.len()) == n
}

/// Whether the needle stands anywhere inside the haystack.
pub fn contains_str(h: &str, n: &str) -> (r: bool)
    ensures
        r == contains_seq(h@, n@),
{
    let hn = h.unicode_len();
    let nn = n.unicode_len();
    if nn > hn {
        proof {
            assert(!contains_seq(h@, n@));
        }
        return false;
    }
    if nn == 0 {
        proof {
            assert(h@.subrange(0, 0 + n@.len() as int) =~= n@);
            assert(contains_seq(h@, n@));
        }
        return true;
    }
    let limit = hn - nn;
    let mut i: usize = 0;
    while i <= limit
        invariant
            hn == h@.len(),
            nn == n@.len(),
            0 < nn <= hn,
            limit == hn - nn,
            i <= limit + 1,
            forall|k: int| 0 <= k < i ==> #[trigger] h@.subrange(k, k + n@.len()) != n@,
        decreases limit + 1 - i,
    {
        if matches_at(h, n, i) {
            proof {
                assert(contains_seq(h@, n@));
            }
            return true;
        }
        i = i + 1;
    }
    proof {
        assert forall|k: int| 0 <= k <= h@.len() - n@.len() implies #[trigger] h@.subrange(
            k,
            k + n@.len(),
        ) != n@ by {
            assert(k < i);
        }
    }
    false
}

/// Whether the needle stands at the given offset of the haystack.
fn matches_at(h: &str, n: &str, at: usize) -> (r: bool)
    requires
        at + n@.len() <= h@.len(),
    ensures
        r == (h@.subrange(at as int, at + n@.len()) == n@),
{
    let hn = h.unicode_len();
    let nn = n.unicode_len();
    let mut j: usize = 0;
    while j < nn
        invariant
            hn == h@.len(),
            nn == n@.len(),
            at + nn <= h@.len(),
            j <= nn,
            forall|k: int| 0 <= k < j ==> h@[at + k] == n@[k],
        decreases nn - j,
    {
        if h.get_char(at + j) != n.get_char(j) {
            proof {
                let sub = h@.subrange(at as int, at + n@.len());
                assert(sub[j as int] == h@[at + j]);
                assert(sub[j as int] != n@[j as int]);
            }
            return false;
        }
        j = j + 1;
    }
    proof {
        assert(h@.subrange(at as int, at + n@.len()) =~= n@);
    }
    true
}

/// Sort an incoming report into its kind from the tag the front end sends,
/// in the order bug, feedback, support; anything else is unknown.
pub fn message_kind_for(kind: &str, subject: String) -> (r: MessageKind)
    ensures
        contains_seq(kind@, "BUG"@) ==> r == MessageKind::Bug(subject),
        !contains_seq(kind@, "BUG"@) && contains_seq(kind@, "FEEDBACK"@) ==> r
            == MessageKind::Feedback(subject),
        !contains_seq(kind@, "BUG"@) && !contains_seq(kind@, "FEEDBACK"@) && contains_seq(
            kind@,
            "SUPPORT"@,
        ) ==> r == MessageKind::Support(subject),
        !contains_seq(kind@, "BUG"@) && !contains_seq(kind@, "FEEDBACK"@) && !contains_seq(
            kind@,
            "SUPPORT"@,
        ) ==> r == MessageKind::Unknown,
{
    if contains_str(kind, "BUG") {
        MessageKind::Bug(subject)
    } else if contains_str(kind, "FEEDBACK") {
        MessageKind::Feedback(subject)
    } else if contains_str(kind, "SUPPORT") {
        MessageKind::Support(subject)
    } else {
        MessageKind::Unknown
    }
}

} // verus!
