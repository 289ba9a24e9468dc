//! What the bot's commands decide and reply: the announcement, the account
//! age reply, and the quiet-time form and its shared post.

use vstd::prelude::*;
use crate::text::{decimal, push_decimal, push_str};

verus! {

/// Why a command did not complete.
#[derive(Clone, Copy, Debug, PartialEq, Eq, Structural)]
pub enum CommandError {
    /// The announcement was invoked without a message.
    MissingMessage,
    /// The user has no global display name to show.
    MissingGlobalName,
    /// The starting verse is shorter than 5 or longer than 15 characters.
    StartVerseLength,
    /// The ending verse is shorter than 5 or longer than 15 characters.
    EndVerseLength,
    /// The summary is shorter than 5 or longer than 1024 characters.
    SummaryLength,
}

/// The text to post for an announcement. Without a message nothing is posted
/// and the command fails.
pub fn announcement(message: Option<String>) -> (r: Result<String, CommandError>)
    ensures
        message is None <==> r == Err::<String, _>(CommandError::MissingMessage),
        message matches Some(m) ==> (r matches Ok(t) && t@ == m@),
{
    match message {
        None => Err(CommandError::MissingMessage),
        Some(m) => Ok(m),
    }
}

/// A platform account as far as the commands read it.
#[derive(Clone, Debug)]
pub struct Account {
    pub id: u64,
    pub global_name: Option<String>,
    /// When the account was created, as the platform renders the timestamp.
    pub created_at: String,
}

/// The account whose age is shown: the selected one, else the invoker.
pub open spec fn subject_of(invoker: Account, selected: Option<Account>) -> Account {
    match selected {
        Some(a) => a,
        None => invoker,
    }
}

pub fn age_subject(invoker: Account, selected: Option<Account>) -> (r: Account)
    ensures
        r == subject_of(invoker, selected),
{
    match selected {
        Some(a) => a,
        None => invoker,
    }
}

/// `"<name>'s account was created at <created_at>"`.
pub open spec fn age_text(name: Seq<char>, created_at: Seq<char>) -> Seq<char> {
    name + "'s account was created at "@ + created_at
}

/// What the age command replies about account `a`.
pub open spec fn age_outcome(a: Account) -> Result<Seq<char>, CommandError> {
    match a.global_name {
        Some(n) => Ok(age_text(n@, a.created_at@)),
        None => Err(CommandError::MissingGlobalName),
    }
}

/// A reply with its text seen as characters.
pub open spec fn reply_view(r: Result<String, CommandError>) -> Result<Seq<char>, CommandError> {
    match r {
        Ok(t) => Ok(t@),
        Err(e) => Err(e),
    }
}

/// The reply of the account age command for `invoker`, about `selected`
/// where one was chosen and about the invoker otherwise.
pub fn age_reply(invoker: Account, selected: Option<Account>) -> (r: Result<String, CommandError>)
    ensures
        reply_view(r) == age_outcome(subject_of(invoker, selected)),
{
    let a = age_subject(invoker, selected);
    match a.global_name {
        None => Err(CommandError::MissingGlobalName),
        Some(n) => {
            let mut s = n.clone();
            push_str(&mut s, "'s account was created at ");
            push_str(&mut s, a.created_at.as_str());
            proof {
                reveal_strlit("'s account was created at ");
            }
            assert(s@ =~= age_text(n@, a.created_at@));
            Ok(s)
        },
    }
}

/// Without a selected user, the age command replies exactly as it would with
/// the invoker selected: it speaks of whoever invoked it.
pub proof fn lemma_age_defaults_to_invoker(invoker: Account)
    ensures
        age_outcome(subject_of(invoker, None)) == age_outcome(subject_of(invoker, Some(invoker))),
        subject_of(invoker, None) == invoker,
{
}

/// What the quiet-time form collects.
#[derive(Clone, Debug)]
pub struct QuietTimeForm {
    pub start_verse: String,
    pub end_verse: String,
    pub summary: Option<String>,
}

/// The content shared in the quiet-time channel.
#[derive(Clone, Debug)]
pub struct QuietTimePost {
    /// Shown as the post's author.
    pub author: String,
    pub title: String,
    /// The text of the verses field.
    pub verses: String,
    /// The text of the summary field; without one the post has no such field.
    pub summary: Option<String>,
}

pub open spec fn verse_ok(v: Seq<char>) -> bool {
    5 <= v.len() <= 15
}

pub open spec fn summary_ok(v: Seq<char>) -> bool {
    5 <= v.len() <= 1024
}

/// Every field of the form is within its length bounds.
pub open spec fn form_ok(f: QuietTimeForm) -> bool {
    &&& verse_ok(f.start_verse@)
    &&& verse_ok(f.end_verse@)
    &&& f.summary matches Some(x) ==> summary_ok(x@)
}

/// `"<name>'s Quiet Time"`.
pub open spec fn quiet_time_title(name: Seq<char>) -> Seq<char> {
    name + "'s Quiet Time"@
}

/// `"From **<start>** to **<end>**"`.
pub open spec fn verses_text(start: Seq<char>, end: Seq<char>) -> Seq<char> {
    "From **"@ + start + "** to **"@ + end + "**"@
}

/// `p` is the post that `name` shares for form `f`: the summary is carried
/// over verbatim where there is one, and left out where there is none.
pub open spec fn post_of(p: QuietTimePost, name: Seq<char>, f: QuietTimeForm) -> bool {
    &&& p.author@ == name
    &&& p.title@ == quiet_time_title(name)
    &&& p.verses@ == verses_text(f.start_verse@, f.end_verse@)
    &&& f.summary is None <==> p.summary is None
    &&& f.summary matches Some(x) ==> (p.summary matches Some(y) && y@ == x@)
}

/// Checks a submitted quiet-time form and builds the post that `author_name`
/// shares. The form is checked before anything else: a field out of its
/// length bounds is refused, the first such field named in the error.
pub fn quiet_time_post(author_name: Option<String>, form: QuietTimeForm) -> (r: Result<
    QuietTimePost,
    CommandError,
>)
    ensures
        !verse_ok(form.start_verse@) ==> r == Err::<QuietTimePost, _>(
            CommandError::StartVerseLength,
        ),
        verse_ok(form.start_verse@) && !verse_ok(form.end_verse@) ==> r == Err::<
            QuietTimePost,
            _,
        >(CommandError::EndVerseLength),
        verse_ok(form.start_verse@) && verse_ok(form.end_verse@) && (form.summary matches Some(x)
            && !summary_ok(x@)) ==> r == Err::<QuietTimePost, _>(CommandError::SummaryLength),
        form_ok(form) && author_name is None ==> r == Err::<QuietTimePost, _>(
            CommandError::MissingGlobalName,
        ),
        form_ok(form) ==> (author_name matches Some(n) ==> (r matches Ok(p) && post_of(
            p,
            n@,
            form,
        ))),
{
    let start_len = form.start_verse.as_str().unicode_len();
    if start_len < 5 || start_len > 15 {
        return Err(CommandError::StartVerseLength);
    }
    let end_len = form.end_verse.as_str().unicode_len();
    if end_len < 5 || end_len > 15 {
        return Err(CommandError::EndVerseLength);
    }
    if let Some(x) = &form.summary {
        let len = x.as_str().unicode_len();
        if len < 5 || len > 1024 {
            return Err(CommandError::SummaryLength);
        }
    }
    let name = match author_name {
        None => {
            return Err(CommandError::MissingGlobalName);
        },
        Some(n) => n,
    };
    let mut title = name.clone();
    push_str(&mut title, "'s Quiet Time");
    let mut verses = String::new();
    push_str(&mut verses, "From **");
    push_str(&mut verses, form.start_verse.as_str());
    push_str(&mut verses, "** to **");
    push_str(&mut verses, form.end_verse.as_str());
    push_str(&mut verses, "**");
    proof {
        reveal_strlit("'s Quiet Time");
        reveal_strlit("From **");
        reveal_strlit("** to **");
        reveal_strlit("**");
    }
    assert(title@ =~= quiet_time_title(name@));
    assert(verses@ =~= verses_text(form.start_verse@, form.end_verse@));
    Ok(QuietTimePost { author: name, title, verses, summary: form.summary })
}

/// `"Hey <@id>! Your quiet time has been shared!"`, which mentions the user.
pub open spec fn shared_text(user_id: u64) -> Seq<char> {
    "Hey <@"@ + decimal(user_id as nat) + ">! Your quiet time has been shared!"@
}

/// The reply to the user once their quiet time has been shared.
pub fn shared_reply(user_id: u64) -> (r: String)
    ensures
        r@ == shared_text(user_id),
{
    let mut s = String::new();
    push_str(&mut s, "Hey <@");
    push_decimal(&mut s, user_id);
    push_str(&mut s, ">! Your quiet time has been shared!");
    proof {
        reveal_strlit("Hey <@");
        reveal_strlit(">! Your quiet time has been shared!");
    }
    assert(s@ =~= shared_text(user_id));
    s
}

} // verus!
