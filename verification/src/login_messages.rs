//! What the operator is told about logins, and the commands that open and close the dialog.
use crate::config::NamesConfig;
use crate::login::{SelfLoginReply, SelfLoginReplyView, SelfLoginTrigger};
use crate::text;
use crate::text::decimal_text;
use crate::watchers;
use vstd::prelude::*;
use vstd::string::StringExecFns;

verus! {

/// What is said of a sign that only the pane shows.
pub open spec fn qualifier_text(corroborated: bool) -> Seq<char> {
    if corroborated {
        ""@
    } else {
        " (seen on the pane only — the credential store was not readable)"@
    }
}

fn qualifier(corroborated: bool) -> (r: &'static str)
    ensures
        r@ == qualifier_text(corroborated),
{
    if corroborated {
        ""
    } else {
        " (seen on the pane only — the credential store was not readable)"
    }
}

/// What the operator is told about an authentication error that opened no dialog.
pub open spec fn banner_text(
    names: NamesConfig,
    auto_enabled: bool,
    corroborated: bool,
    reason: Seq<char>,
) -> Seq<char> {
    names.product@ + " login needed: API Error 401, OAuth access token expired"@ + qualifier_text(
        corroborated,
    ) + "."@ + (if auto_enabled {
        " Auto-login did not fire: "@ + reason + "."@
    } else {
        " Auto-login is disabled; run `self-login start` or `/login`."@
    })
}

/// [`banner_text`], executable.
pub fn banner_alert_message(
    names: &NamesConfig,
    auto_enabled: bool,
    corroborated: bool,
    reason: &str,
) -> (r: String)
    ensures
        r@ == banner_text(*names, auto_enabled, corroborated, reason@),
{
    let tail = if auto_enabled {
        " Auto-login did not fire: ".to_owned().concat(reason).concat(".")
    } else {
        " Auto-login is disabled; run `self-login start` or `/login`.".to_owned()
    };
    names.product.clone().concat(
        " login needed: API Error 401, OAuth access token expired",
    ).concat(qualifier(corroborated)).concat(".").concat(tail.as_str())
}

/// What the operator is told about a login that expires.
pub open spec fn expiry_text(
    names: NamesConfig,
    auto_enabled: bool,
    days_left: u32,
    corroborated: bool,
    login: bool,
) -> Seq<char> {
    names.product@ + " login expires in "@ + text::decimal(days_left as nat) + " day(s)"@
        + qualifier_text(corroborated) + "."@ + (if login {
        " Auto-login fired; watch for the OAuth URL."@
    } else if auto_enabled {
        " Auto-login has not fired yet."@
    } else {
        " Auto-login is disabled; run `self-login start` when convenient."@
    })
}

/// [`expiry_text`], executable.
pub fn expiry_alert_message(
    names: &NamesConfig,
    auto_enabled: bool,
    days_left: u32,
    corroborated: bool,
    login: bool,
) -> (r: String)
    ensures
        r@ == expiry_text(*names, auto_enabled, days_left, corroborated, login),
{
    let tail = if login {
        " Auto-login fired; watch for the OAuth URL."
    } else if auto_enabled {
        " Auto-login has not fired yet."
    } else {
        " Auto-login is disabled; run `self-login start` when convenient."
    };
    names.product.clone().concat(" login expires in ").concat(
        decimal_text(days_left as u64).as_str(),
    ).concat(" day(s)").concat(qualifier(corroborated)).concat(".").concat(tail)
}

/// What the operator is told about a login screen that shows an address.
pub open spec fn login_screen_text(names: NamesConfig, url: Seq<char>) -> Seq<char> {
    names.product@ + " login needed. URL: "@ + url
}

/// [`login_screen_text`], executable.
pub fn login_screen_message(names: &NamesConfig, url: &str) -> (r: String)
    ensures
        r@ == login_screen_text(*names, url@),
{
    names.product.clone().concat(" login needed. URL: ").concat(url)
}

/// What the operator is told once the login command has come back: where to authorise the
/// login, or that it failed and what to do.
pub open spec fn reply_text(
    names: NamesConfig,
    trigger: SelfLoginTrigger,
    reply: SelfLoginReplyView,
) -> Seq<char> {
    trigger.situation_text(names) + match reply {
        SelfLoginReplyView::Url(url) => " and auto-login has opened the dialog. Authorize at "@
            + url + " then run: self-login code <CODE>"@,
        SelfLoginReplyView::Failed(reason) => " and auto-login FAILED: "@ + reason + ". "@
            + trigger.advice_text(),
    }
}

/// [`reply_text`], executable.
pub fn login_reply_message(
    names: &NamesConfig,
    trigger: SelfLoginTrigger,
    reply: &SelfLoginReply,
) -> (r: String)
    ensures
        r@ == reply_text(*names, trigger, reply@),
{
    let tail = match reply {
        SelfLoginReply::Url(url) => " and auto-login has opened the dialog. Authorize at ".to_owned().concat(
            url.as_str(),
        ).concat(" then run: self-login code <CODE>"),
        SelfLoginReply::Failed(reason) => " and auto-login FAILED: ".to_owned().concat(
            reason.as_str(),
        ).concat(". ").concat(trigger.advice()),
    };
    trigger.situation(names).concat(tail.as_str())
}

/// The command that opens the login dialog, waits for its address and writes it as JSON.
pub open spec fn open_dialog_args(command: Seq<char>, pane: Seq<char>) -> Seq<Seq<char>> {
    seq![command, "--pane"@, pane, "--json"@, "start"@, "--foreground"@]
}

/// The command that closes the login dialog.
pub open spec fn close_dialog_args(command: Seq<char>, pane: Seq<char>) -> Seq<Seq<char>> {
    seq![command, "--pane"@, pane, "--json"@, "cancel"@]
}

/// [`open_dialog_args`], executable.
pub fn self_login_start_args(command: &str, pane: &str) -> (r: Vec<String>)
    ensures
        watchers::texts(r@) == open_dialog_args(command@, pane@),
{
    let mut args: Vec<String> = Vec::new();
    args.push(command.to_owned());
    args.push("--pane".to_owned());
    args.push(pane.to_owned());
    args.push("--json".to_owned());
    args.push("start".to_owned());
    args.push("--foreground".to_owned());
    assert(watchers::texts(args@) =~= open_dialog_args(command@, pane@));
    args
}

/// [`close_dialog_args`], executable.
pub fn self_login_cancel_args(command: &str, pane: &str) -> (r: Vec<String>)
    ensures
        watchers::texts(r@) == close_dialog_args(command@, pane@),
{
    let mut args: Vec<String> = Vec::new();
    args.push(command.to_owned());
    args.push("--pane".to_owned());
    args.push(pane.to_owned());
    args.push("--json".to_owned());
    args.push("cancel".to_owned());
    assert(watchers::texts(args@) =~= close_dialog_args(command@, pane@));
    args
}

proof fn lemma_part(before: Seq<char>, part: Seq<char>, after: Seq<char>)
    ensures
        text::occurs_in(before + part + after, part),
{
    let whole = before + part + after;
    let at = before.len() as int;
    assert(whole.subrange(at, at + part.len()) =~= part);
    assert(text::occurs_at(whole, part, at));
}

/// A banner that opened no dialog is told with the reason, where logins are automatic, and
/// without it, where the operator has to log in anyway; what only the pane shows is said to be
/// so.
pub proof fn banner_is_told_with_its_reason(
    names: NamesConfig,
    corroborated: bool,
    reason: Seq<char>,
    other: Seq<char>,
)
    ensures
        text::occurs_in(banner_text(names, true, corroborated, reason), reason),
        banner_text(names, false, corroborated, reason) == banner_text(
            names,
            false,
            corroborated,
            other,
        ),
        text::occurs_in(banner_text(names, false, corroborated, reason), "`self-login start`"@),
        text::occurs_in(
            banner_text(names, true, false, reason),
            "(seen on the pane only"@,
        ),
        text::occurs_in(banner_text(names, true, corroborated, reason), names.product@),
{
    let head = names.product@ + " login needed: API Error 401, OAuth access token expired"@;
    let auto = " Auto-login did not fire: "@ + reason + "."@;
    let whole = banner_text(names, true, corroborated, reason);
    lemma_part(
        head + qualifier_text(corroborated) + "."@ + " Auto-login did not fire: "@,
        reason,
        "."@,
    );
    assert(whole =~= head + qualifier_text(corroborated) + "."@ + " Auto-login did not fire: "@
        + reason + "."@);
    reveal_strlit(" Auto-login is disabled; run `self-login start` or `/login`.");
    reveal_strlit("`self-login start`");
    let advice = " Auto-login is disabled; run `self-login start` or `/login`."@;
    let tail = advice.subrange(47, advice.len() as int);
    assert(advice =~= advice.subrange(0, 29) + "`self-login start`"@ + tail);
    lemma_part(
        head + qualifier_text(corroborated) + "."@ + advice.subrange(0, 29),
        "`self-login start`"@,
        tail,
    );
    assert(banner_text(names, false, corroborated, reason) =~= head + qualifier_text(corroborated)
        + "."@ + advice.subrange(0, 29) + "`self-login start`"@ + tail);
    reveal_strlit(" (seen on the pane only — the credential store was not readable)");
    reveal_strlit("(seen on the pane only");
    let note = " (seen on the pane only — the credential store was not readable)"@;
    let rest = note.subrange(23, note.len() as int);
    assert(note =~= note.subrange(0, 1) + "(seen on the pane only"@ + rest);
    lemma_part(
        head + note.subrange(0, 1),
        "(seen on the pane only"@,
        rest + "."@ + auto,
    );
    assert(banner_text(names, true, false, reason) =~= head + note.subrange(0, 1)
        + "(seen on the pane only"@ + (rest + "."@ + auto));
    lemma_part(
        Seq::empty(),
        names.product@,
        whole.subrange(names.product@.len() as int, whole.len() as int),
    );
    assert(whole =~= Seq::<char>::empty() + names.product@ + whole.subrange(
        names.product@.len() as int,
        whole.len() as int,
    ));
}

/// An expiry is told with the days that are left; a login screen and an opened dialog are told
/// with the address, and a failed login with the reason.
pub proof fn messages_carry_what_they_are_about(
    names: NamesConfig,
    auto_enabled: bool,
    days_left: u32,
    corroborated: bool,
    login: bool,
    url: Seq<char>,
    reason: Seq<char>,
    trigger: SelfLoginTrigger,
)
    ensures
        text::occurs_in(
            expiry_text(names, auto_enabled, days_left, corroborated, login),
            text::decimal(days_left as nat),
        ),
        text::ends_with(login_screen_text(names, url), url),
        text::occurs_in(reply_text(names, trigger, SelfLoginReplyView::Url(url)), url),
        text::occurs_in(reply_text(names, trigger, SelfLoginReplyView::Failed(reason)), reason),
        text::ends_with(
            reply_text(names, trigger, SelfLoginReplyView::Failed(reason)),
            trigger.advice_text(),
        ),
{
    let days = text::decimal(days_left as nat);
    let said = expiry_text(names, auto_enabled, days_left, corroborated, login);
    let before = names.product@ + " login expires in "@;
    let at = before.len() as int;
    assert(said.subrange(at, at + days.len()) =~= days);
    assert(text::occurs_at(said, days, at));
    let screen = login_screen_text(names, url);
    assert(screen.subrange(screen.len() - url.len(), screen.len() as int) =~= url);
    let situation = trigger.situation_text(names);
    let opened = reply_text(names, trigger, SelfLoginReplyView::Url(url));
    let from = (situation + " and auto-login has opened the dialog. Authorize at "@).len() as int;
    assert(opened.subrange(from, from + url.len()) =~= url);
    assert(text::occurs_at(opened, url, from));
    let failed = reply_text(names, trigger, SelfLoginReplyView::Failed(reason));
    let why = (situation + " and auto-login FAILED: "@).len() as int;
    assert(failed.subrange(why, why + reason.len()) =~= reason);
    assert(text::occurs_at(failed, reason, why));
    let advice = trigger.advice_text();
    assert(failed.subrange(failed.len() - advice.len(), failed.len() as int) =~= advice);
}

/// The dialog is opened and closed by the same command on the same pane, with the reply as
/// JSON: opened in the foreground, to wait for the address.
pub proof fn dialog_commands_name_the_pane(command: Seq<char>, pane: Seq<char>)
    ensures
        ({
            let opens = open_dialog_args(command, pane);
            let closes = close_dialog_args(command, pane);
            &&& opens.len() == 6 && closes.len() == 5
            &&& opens[0] == command && closes[0] == command
            &&& opens[1] == "--pane"@ && opens[2] == pane
            &&& closes[1] == "--pane"@ && closes[2] == pane
            &&& opens[3] == "--json"@ && closes[3] == "--json"@
            &&& opens[4] == "start"@ && closes[4] == "cancel"@
            &&& opens[5] == "--foreground"@
        }),
{
}

} // verus!
