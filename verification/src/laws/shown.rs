//! What is shown of chats, sessions and commands.
use vstd::prelude::*;

use crate::keyed::IdSet;
use crate::order::{ordered_is_in_order, ordered_is_permutation, text_le, text_not_after};
use crate::proto::{
    chat_key, chat_label, chat_location, deref, device_key, display_status, effective_indicator,
    folder_name, format_time_ago, gate_phase, group_chats, labelled, labels_of, project_key,
    project_label, sort_active, sort_chats, sort_devices, sort_projects, sort_tabs, tab_key,
    without_slashes, Chat, ChatGroup, ChatIndicator, ConnectionStatus, Device, GatePhase, Indicator,
    MessagePart, Project, Session, SessionMessageEntry,
};
use crate::terminal::feed::{
    exec_feed, expansion, expansion_note, feed_of, follow_target, is_feed_row_expanded,
    output_display_lines, parts_feed, row_style, tail_lines, FeedEntry, FeedExpansion, FeedGlyph,
    FeedOutput, FeedStatus, FeedView,
};
use crate::text::{after_last, decimal, lines_of, one_line, trimmed};
use crate::wire::opt;

verus! {

/// Whether a chat has a message that came after the last look at it.
pub open spec fn has_news(c: Chat) -> bool {
    match c.last_message_at {
        None => false,
        Some(message) => match c.last_seen_at {
            None => true,
            Some(seen) => seen < message,
        },
    }
}

/// The time that a chat stands in the list by.
pub open spec fn active_at(c: Chat) -> int {
    match c.last_message_at {
        Some(t) => t as int,
        None => c.created_at as int,
    }
}

/// A session shows its dot while it lives: work and waiting fade after
/// forty-five seconds without a sign of life, an error does not, and idleness has
/// none.
pub proof fn a_dot_shows_the_session(session: Option<&Session>, now: i64, i: Indicator)
    requires
        call_ensures(effective_indicator, (session, now), i),
    ensures
        session is None ==> i is Quiet,
        session matches Some(s) ==> {
            let fresh = now - s.updated_at <= 45_000_000;
            &&& i is Working <==> s.status is Working && fresh
            &&& i is AwaitingInput <==> s.status is AwaitingInput && fresh
            &&& i is Errored <==> s.status is Errored
        },
{
}

/// A chat has news when a message came after the last look, and only then.
pub proof fn news_is_an_unseen_message(c: &Chat, r: bool, t: i64)
    requires
        call_ensures(Chat::unseen, (c,), r),
        call_ensures(Chat::last_activity, (c,), t),
    ensures
        r <==> has_news(*c),
        t == active_at(*c),
{
}

/// A chat's status: what its session does while it lives, else an error or a
/// result for as long as it is news, else nothing.
pub proof fn a_status_shows_the_chat(
    c: &Chat,
    session: Option<&Session>,
    now: i64,
    s: ChatIndicator,
    dot: Indicator,
)
    requires
        call_ensures(display_status, (c, session, now), s),
        call_ensures(effective_indicator, (session, now), dot),
    ensures
        s is Working <==> dot is Working,
        s is AwaitingInput <==> dot is AwaitingInput,
        s is Errored <==> dot is Errored && has_news(*c),
        s is Completed <==> dot is Quiet && has_news(*c),
        s is Idle <==> (dot is Errored || dot is Quiet) && !has_news(*c),
{
}

/// The window waits while the engine is being connected, opens when it is, and
/// says why when it could not be.
pub proof fn the_gate_shows_the_connection(c: &ConnectionStatus, g: GatePhase)
    requires
        call_ensures(gate_phase, (c,), g),
    ensures
        c is Connecting <==> g is Loading,
        c is Ready <==> g is Ready,
        *c matches ConnectionStatus::Failed(m) ==> g == GatePhase::Failed(m),
{
}

/// Texts go by their first difference, and a text stands before what it begins.
pub proof fn texts_go_by_their_first_difference(a: &str, b: &str, k: int, r: bool)
    requires
        call_ensures(text_not_after, (a, b), r),
        0 <= k <= a@.len(),
        k <= b@.len(),
        forall|j: int| 0 <= j < k ==> a@[j] == b@[j],
    ensures
        k == a@.len() ==> r,
        k < a@.len() && k == b@.len() ==> !r,
        k < a@.len() && k < b@.len() && a@[k] != b@[k] ==> r == ((a@[k] as int) < (b@[k] as int)),
{
    first_difference(a@, b@, k);
}

proof fn first_difference(a: Seq<char>, b: Seq<char>, k: int)
    requires
        0 <= k <= a.len(),
        k <= b.len(),
        forall|j: int| 0 <= j < k ==> a[j] == b[j],
    ensures
        k == a.len() ==> text_le(a, b),
        k < a.len() && k == b.len() ==> !text_le(a, b),
        k < a.len() && k < b.len() && a[k] != b[k] ==> text_le(a, b) == ((a[k] as int) < (
        b[k] as int)),
    decreases k,
{
    if k > 0 {
        let x = a.subrange(1, a.len() as int);
        let y = b.subrange(1, b.len() as int);
        assert(a[0] == b[0]);
        assert forall|j: int| 0 <= j < k - 1 implies x[j] == y[j] by {
            assert(a[j + 1] == b[j + 1]);
        }
        first_difference(x, y, k - 1);
    }
}

/// Chats stand by their last activity, the latest first, and by id where that is
/// the same; none is lost and none comes twice.
pub proof fn the_latest_chats_come_first(chats: &mut Vec<Chat>)
    requires
        call_ensures(sort_chats, (chats,), ()),
    ensures
        final(chats)@.to_multiset() == old(chats)@.to_multiset(),
        forall|i: int, j: int|
            0 <= i < j < final(chats)@.len() ==> {
                let a = #[trigger] final(chats)@[i];
                let b = #[trigger] final(chats)@[j];
                active_at(a) > active_at(b) || (active_at(a) == active_at(b) && text_le(
                    a.id@,
                    b.id@,
                ))
            },
{
    let key = |c: Chat| chat_key(c);
    ordered_is_permutation(old(chats)@, key);
    ordered_is_in_order(old(chats)@, key);
}

/// Projects stand by their creation, the oldest first, and by id where that is
/// the same.
pub proof fn the_oldest_projects_come_first(projects: &mut Vec<Project>)
    requires
        call_ensures(sort_projects, (projects,), ()),
    ensures
        final(projects)@.to_multiset() == old(projects)@.to_multiset(),
        forall|i: int, j: int|
            0 <= i < j < final(projects)@.len() ==> {
                let a = #[trigger] final(projects)@[i];
                let b = #[trigger] final(projects)@[j];
                a.created_at < b.created_at || (a.created_at == b.created_at && text_le(
                    a.id@,
                    b.id@,
                ))
            },
{
    let key = |p: Project| project_key(p);
    ordered_is_permutation(old(projects)@, key);
    ordered_is_in_order(old(projects)@, key);
}

/// A project's tabs stand by their creation, the oldest first.
pub proof fn the_oldest_tabs_come_first(chats: &mut Vec<&Chat>)
    requires
        call_ensures(sort_tabs, (chats,), ()),
    ensures
        final(chats)@.to_multiset() == old(chats)@.to_multiset(),
        forall|i: int, j: int|
            0 <= i < j < final(chats)@.len() ==> (#[trigger] final(chats)@[i]).created_at <= (
            #[trigger] final(chats)@[j]).created_at,
{
    let key = |c: &Chat| tab_key(c);
    ordered_is_permutation(old(chats)@, key);
    ordered_is_in_order(old(chats)@, key);
}

/// The sessions stand by their last activity, the latest first, whatever their
/// status.
pub proof fn the_latest_sessions_come_first(rows: &mut Vec<(ChatIndicator, &Chat)>)
    requires
        call_ensures(sort_active, (rows,), ()),
    ensures
        final(rows)@.to_multiset() == old(rows)@.to_multiset(),
        forall|i: int, j: int|
            0 <= i < j < final(rows)@.len() ==> active_at(*(#[trigger] final(rows)@[i]).1)
                >= active_at(*(#[trigger] final(rows)@[j]).1),
{
    let key = |r: (ChatIndicator, &Chat)| crate::proto::active_key(r);
    ordered_is_permutation(old(rows)@, key);
    ordered_is_in_order(old(rows)@, key);
}

/// Devices stand by id.
pub proof fn devices_stand_by_id(devices: &mut Vec<Device>)
    requires
        call_ensures(sort_devices, (devices,), ()),
    ensures
        final(devices)@.to_multiset() == old(devices)@.to_multiset(),
        forall|i: int, j: int|
            0 <= i < j < final(devices)@.len() ==> text_le(
                (#[trigger] final(devices)@[i]).id@,
                (#[trigger] final(devices)@[j]).id@,
            ),
{
    let key = |d: Device| device_key(d);
    ordered_is_permutation(old(devices)@, key);
    ordered_is_in_order(old(devices)@, key);
}

proof fn cut_at_slashes(path: Seq<char>)
    ensures
        ({
            let s = without_slashes(path);
            &&& s.len() <= path.len()
            &&& s == path.take(s.len() as int)
            &&& forall|i: int| s.len() <= i < path.len() ==> path[i] == '/'
            &&& s.len() > 0 ==> s.last() != '/'
        }),
    decreases path.len(),
{
    if path.len() > 0 && path.last() == '/' {
        cut_at_slashes(path.drop_last());
        let s = without_slashes(path);
        assert(path.drop_last().take(s.len() as int) =~= path.take(s.len() as int));
        assert forall|i: int| s.len() <= i < path.len() implies path[i] == '/' by {
            if i < path.len() - 1 {
                assert(path.drop_last()[i] == '/');
            }
        }
    } else {
        assert(path.take(path.len() as int) =~= path);
    }
}

/// What follows the last mark is a tail without it, right behind one or all.
pub proof fn what_follows_the_last(s: Seq<char>, c: char)
    ensures
        ({
            let r = after_last(s, c);
            &&& r.len() <= s.len()
            &&& r == s.skip(s.len() - r.len())
            &&& forall|i: int| 0 <= i < r.len() ==> #[trigger] r[i] != c
            &&& r.len() < s.len() ==> s[s.len() - r.len() - 1] == c
        }),
    decreases s.len(),
{
    if s.len() > 0 && s[s.len() - 1] != c {
        let head = s.subrange(0, s.len() - 1);
        what_follows_the_last(head, c);
        let r = after_last(s, c);
        let q = after_last(head, c);
        assert(r =~= s.skip(s.len() - r.len())) by {
            assert forall|i: int| 0 <= i < r.len() implies r[i] == s[s.len() - r.len() + i] by {
                if i < q.len() {
                    assert(q[i] == head.skip(head.len() - q.len())[i]);
                }
            }
        }
        assert forall|i: int| 0 <= i < r.len() implies #[trigger] r[i] != c by {
            if i < q.len() {
                assert(q[i] != c);
            }
        }
    } else {
        assert(s.skip(s.len() as int) =~= Seq::<char>::empty());
    }
}

/// The name of a folder is the part of its path between the last slash before it
/// and the slashes at the end; a path of slashes is its own name.
pub proof fn a_folder_is_named_by_its_last_part(path: &str, r: String)
    requires
        call_ensures(folder_name, (path,), r),
    ensures
        (forall|i: int| 0 <= i < path@.len() ==> #[trigger] path@[i] == '/') ==> r@ == path@,
        (exists|i: int| 0 <= i < path@.len() && #[trigger] path@[i] != '/') ==> {
            &&& r@.len() > 0
            &&& forall|i: int| 0 <= i < r@.len() ==> #[trigger] r@[i] != '/'
            &&& exists|from: int|
                #![trigger path@.subrange(from, from + r@.len())]
                {
                    &&& 0 <= from && from + r@.len() <= path@.len()
                    &&& path@.subrange(from, from + r@.len()) == r@
                    &&& from > 0 ==> path@[from - 1] == '/'
                    &&& forall|i: int| from + r@.len() <= i < path@.len() ==> #[trigger] path@[i]
                        == '/'
                }
        },
{
    cut_at_slashes(path@);
    let s = without_slashes(path@);
    what_follows_the_last(s, '/');
    let name = after_last(s, '/');
    if forall|i: int| 0 <= i < path@.len() ==> #[trigger] path@[i] == '/' {
        if s.len() > 0 {
            assert(s.last() == path@[s.len() - 1]);
        }
    } else {
        let i = choose|i: int| 0 <= i < path@.len() && #[trigger] path@[i] != '/';
        assert(s.len() > 0);
        assert(name.len() > 0) by {
            if name.len() == 0 {
                assert(s[s.len() - 1] == '/');
            }
        }
        let from = s.len() - name.len();
        assert(path@.subrange(from, from + name.len()) =~= name) by {
            assert forall|k: int| 0 <= k < name.len() implies path@[from + k] == name[k] by {
                assert(s[from + k] == path@[from + k]);
                assert(name[k] == s.skip(from)[k]);
            }
        }
        assert(from > 0 ==> path@[from - 1] == '/') by {
            if from > 0 {
                assert(s[from - 1] == path@[from - 1]);
            }
        }
    }
}

/// A working directory is shown as its folder, and none, or a blank one, as no
/// project.
pub proof fn a_directory_is_shown_as_its_folder(
    cwd: &str,
    bare: &str,
    label: String,
    name: String,
    none: String,
)
    requires
        call_ensures(project_label, (Some(cwd),), label),
        call_ensures(project_label, (None::<&str>,), none),
        bare@ == trimmed(cwd@),
        call_ensures(folder_name, (bare,), name),
    ensures
        none@ == "No project"@,
        trimmed(cwd@).len() == 0 ==> label@ == "No project"@,
        trimmed(cwd@).len() > 0 ==> label@ == name@,
{
}

proof fn labels_cover(chats: Seq<Chat>, i: int)
    requires
        0 <= i < chats.len(),
    ensures
        labels_of(chats).contains(chat_label(chats[i])),
        labelled(chats, chat_label(chats[i])).contains(chats[i]),
    decreases chats.len(),
{
    let rest = chats.drop_last();
    let label = chat_label(chats[i]);
    let before = labels_of(rest);
    if i < rest.len() {
        labels_cover(rest, i);
        assert(rest[i] == chats[i]);
        let k = choose|k: int| 0 <= k < before.len() && before[k] == label;
        assert(labels_of(chats)[k] == label);
        let had = labelled(rest, label);
        let m = choose|m: int| 0 <= m < had.len() && had[m] == chats[i];
        assert(labelled(chats, label)[m] == chats[i]);
    } else {
        if before.contains(label) {
        } else {
            assert(labels_of(chats).last() == label);
        }
        assert(labelled(chats, label).last() == chats[i]);
    }
}

proof fn labelled_have_the_label(chats: Seq<Chat>, label: Seq<char>, k: int)
    requires
        0 <= k < labelled(chats, label).len(),
    ensures
        chat_label(labelled(chats, label)[k]) == label,
        chats.contains(labelled(chats, label)[k]),
    decreases chats.len(),
{
    let rest = chats.drop_last();
    let had = labelled(rest, label);
    if k < had.len() {
        labelled_have_the_label(rest, label, k);
        let i = choose|i: int| 0 <= i < rest.len() && rest[i] == had[k];
        assert(chats[i] == had[k]);
    } else {
        assert(chats[chats.len() - 1] == chats.last());
    }
}

proof fn labels_are_distinct(chats: Seq<Chat>)
    ensures
        labels_of(chats).no_duplicates(),
        chats.len() > 0 ==> labels_of(chats).len() > 0 && labels_of(chats)[0] == chat_label(
            chats[0],
        ),
    decreases chats.len(),
{
    if chats.len() > 0 {
        labels_are_distinct(chats.drop_last());
    }
}

/// A group holds the chats of one folder, all of them and no others; no two
/// groups are of the same folder, and the first is that of the first chat.
pub proof fn a_group_holds_a_folder(chats: &Vec<&Chat>, groups: Vec<ChatGroup>, i: int)
    requires
        call_ensures(group_chats, (chats,), groups),
        0 <= i < chats@.len(),
    ensures
        exists|g: int, k: int|
            0 <= g < groups@.len() && 0 <= k < groups@[g].chats@.len() && groups@[g].label@
                == chat_label(*chats@[i]) && *(#[trigger] groups@[g].chats@[k]) == *chats@[i],
        forall|g: int, k: int|
            0 <= g < groups@.len() && 0 <= k < groups@[g].chats@.len() ==> chat_label(
                *(#[trigger] groups@[g].chats@[k]),
            ) == groups@[g].label@,
        forall|g: int, h: int|
            0 <= g < h < groups@.len() ==> (#[trigger] groups@[g]).label@ != (
            #[trigger] groups@[h]).label@,
        groups@.len() > 0 && groups@[0].label@ == chat_label(*chats@[0]),
{
    let all = deref(chats@);
    assert(all[i] == *chats@[i] && all[0] == *chats@[0]);
    labels_are_distinct(all);
    labels_cover(all, i);
    let label = chat_label(all[i]);
    let g = choose|g: int| 0 <= g < labels_of(all).len() && labels_of(all)[g] == label;
    assert(groups@[g].label@ == label);
    let k = choose|k: int| 0 <= k < labelled(all, label).len() && labelled(all, label)[k] == all[i];
    assert(deref(groups@[g].chats@)[k] == *groups@[g].chats@[k]);
    assert(deref(groups@[g].chats@).len() == groups@[g].chats@.len());
    assert forall|g: int, k: int|
        0 <= g < groups@.len() && 0 <= k < groups@[g].chats@.len() implies chat_label(
        *(#[trigger] groups@[g].chats@[k]),
    ) == groups@[g].label@ by {
        let l = groups@[g].label@;
        assert(deref(groups@[g].chats@)[k] == *groups@[g].chats@[k]);
        assert(deref(groups@[g].chats@).len() == groups@[g].chats@.len());
        labelled_have_the_label(all, l, k);
    }
    assert forall|g: int, h: int| 0 <= g < h < groups@.len() implies (#[trigger] groups@[g]).label@
        != (#[trigger] groups@[h]).label@ by {
        assert(labels_of(all)[g] != labels_of(all)[h]);
    }
}

/// A time is told in the largest unit that fits: seconds and the future are now,
/// then minutes, hours, days, weeks up to five, months of thirty days, years.
pub proof fn a_time_is_told_in_its_unit(then: i64, now: i64, s: String)
    requires
        call_ensures(format_time_ago, (then, now), s),
    ensures
        ({
            let age = (now - then) / 1_000_000;
            let minute: int = 60;
            let hour: int = 3_600;
            let day: int = 86_400;
            &&& now <= then || age < minute ==> s@ == "now"@
            &&& minute <= age < hour ==> s@ == decimal((age / minute) as nat) + "m"@
            &&& hour <= age < day ==> s@ == decimal((age / hour) as nat) + "h"@
            &&& day <= age < 7 * day ==> s@ == decimal((age / day) as nat) + "d"@
            &&& 7 * day <= age < 35 * day ==> s@ == decimal((age / (7 * day)) as nat) + "w"@
            &&& 35 * day <= age < 365 * day ==> s@ == decimal((age / (30 * day)) as nat) + "mo"@
            &&& 365 * day <= age ==> s@ == decimal((age / (365 * day)) as nat) + "y"@
        }),
{
    let age = (now - then) / 1_000_000;
    assert(age / 86_400 / 7 == age / 604_800);
    assert(age / 86_400 / 30 == age / 2_592_000);
    assert(age / 86_400 / 365 == age / 31_536_000);
}

/// A chat's place is its folder and its branch, as far as it has them.
pub proof fn a_chat_is_placed(c: &Chat, r: Option<String>, bare: &str, name: String)
    requires
        call_ensures(chat_location, (c,), r),
        c.cwd is Some ==> bare@ == trimmed(c.cwd->0@),
        call_ensures(folder_name, (bare,), name),
    ensures
        ({
            let has_folder = c.cwd is Some && trimmed(c.cwd->0@).len() > 0;
            let has_branch = c.branch is Some && trimmed(c.branch->0@).len() > 0;
            &&& r is None <==> !has_folder && !has_branch
            &&& has_folder && !has_branch ==> opt(r) == Some(name@)
            &&& !has_folder && has_branch ==> opt(r) == Some(trimmed(c.branch->0@))
            &&& has_folder && has_branch ==> opt(r) == Some(
                name@ + " \u{b7} "@ + trimmed(c.branch->0@),
            )
        }),
{
}

/// Whether a part is a shell command.
pub open spec fn is_command(p: MessagePart) -> bool {
    p is Tool && p->call is Exec
}

/// The number of commands among the first `n` parts.
pub open spec fn commands_in(parts: Seq<MessagePart>, n: int) -> int
    decreases n,
{
    if n <= 0 {
        0
    } else {
        commands_in(parts, n - 1) + (if is_command(parts[n - 1]) {
            1int
        } else {
            0int
        })
    }
}

/// The number of commands of the first `m` messages.
pub open spec fn commands_before(entries: Seq<SessionMessageEntry>, m: int) -> int
    decreases m,
{
    if m <= 0 {
        0
    } else {
        commands_before(entries, m - 1) + commands_in(
            entries[m - 1].parts@,
            entries[m - 1].parts@.len() as int,
        )
    }
}

/// Whether a row shows a command: its id, its text on one line, and how it
/// stands.
pub open spec fn row_shows_command(r: FeedView, p: MessagePart, live: bool) -> bool {
    &&& r.id == p->Tool_id@
    &&& r.command == one_line(p->call->command@)
    &&& r.status is Failed <==> p->is_error
    &&& r.status is Done <==> !p->is_error && p->resolved
    &&& r.status is Running <==> !p->is_error && !p->resolved && live
    &&& r.status is Unfinished <==> !p->is_error && !p->resolved && !live
}

proof fn same_commands(a: Seq<MessagePart>, b: Seq<MessagePart>, n: int)
    requires
        forall|k: int| 0 <= k < n ==> a[k] == b[k],
    ensures
        commands_in(a, n) == commands_in(b, n),
    decreases n,
{
    if n > 0 {
        same_commands(a, b, n - 1);
        assert(a[n - 1] == b[n - 1]);
    }
}

proof fn commands_grow(parts: Seq<MessagePart>, i: int, n: int)
    requires
        0 <= i <= n,
    ensures
        0 <= commands_in(parts, i) <= commands_in(parts, n),
    decreases n,
{
    if i < n {
        commands_grow(parts, i, n - 1);
    } else if n > 0 {
        commands_grow(parts, i - 1, n - 1);
    }
}

proof fn parts_show_their_commands(parts: Seq<MessagePart>, live: bool)
    ensures
        parts_feed(parts, live).len() == commands_in(parts, parts.len() as int),
        forall|p: int|
            0 <= p < parts.len() && is_command(#[trigger] parts[p]) ==> commands_in(parts, p)
                < parts_feed(parts, live).len() && row_shows_command(
                parts_feed(parts, live)[commands_in(parts, p)],
                parts[p],
                live,
            ),
    decreases parts.len(),
{
    if parts.len() > 0 {
        let rest = parts.drop_last();
        parts_show_their_commands(rest, live);
        let n = rest.len() as int;
        same_commands(rest, parts, n);
        assert forall|p: int| 0 <= p < parts.len() && is_command(#[trigger] parts[p]) implies
            commands_in(parts, p) < parts_feed(parts, live).len() && row_shows_command(
            parts_feed(parts, live)[commands_in(parts, p)],
            parts[p],
            live,
        ) by {
            same_commands(rest, parts, p);
            commands_grow(parts, p, n);
            if p < n {
                assert(rest[p] == parts[p]);
                assert(commands_in(rest, p) < parts_feed(rest, live).len());
            }
        }
    }
}

proof fn entries_before(a: Seq<SessionMessageEntry>, b: Seq<SessionMessageEntry>, m: int)
    requires
        forall|k: int| 0 <= k < m ==> a[k] == b[k],
    ensures
        commands_before(a, m) == commands_before(b, m),
    decreases m,
{
    if m > 0 {
        entries_before(a, b, m - 1);
        assert(a[m - 1] == b[m - 1]);
    }
}

proof fn feeds_grow(entries: Seq<SessionMessageEntry>, i: int, m: int)
    requires
        0 <= i <= m,
    ensures
        0 <= commands_before(entries, i) <= commands_before(entries, m),
    decreases m,
{
    if m > 0 {
        commands_grow(entries[m - 1].parts@, 0, entries[m - 1].parts@.len() as int);
    }
    if i < m {
        feeds_grow(entries, i, m - 1);
    } else if m > 0 {
        feeds_grow(entries, i - 1, m - 1);
    }
}

proof fn the_feed_shows(entries: Seq<SessionMessageEntry>, live: bool, m: int, p: int)
    ensures
        feed_of(entries, live).len() == commands_before(entries, entries.len() as int),
        0 <= m < entries.len() && 0 <= p < entries[m].parts@.len() && is_command(
            entries[m].parts@[p],
        ) ==> {
            let at = commands_before(entries, m) + commands_in(entries[m].parts@, p);
            0 <= at < feed_of(entries, live).len() && row_shows_command(
                feed_of(entries, live)[at],
                entries[m].parts@[p],
                live,
            )
        },
    decreases entries.len(),
{
    if entries.len() > 0 {
        let rest = entries.drop_last();
        let n = rest.len() as int;
        the_feed_shows(rest, live, m, p);
        entries_before(rest, entries, n);
        parts_show_their_commands(entries.last().parts@, live);
        if 0 <= m < entries.len() && 0 <= p < entries[m].parts@.len() && is_command(
            entries[m].parts@[p],
        ) {
            entries_before(rest, entries, m);
            feeds_grow(entries, 0, m);
            commands_grow(entries[m].parts@, 0, p);
            if m < n {
                assert(rest[m] == entries[m]);
            } else {
                assert(entries.last().parts@[p] == entries[m].parts@[p]);
            }
        }
    }
}

/// The feed has one row for each shell command of the transcript, in the order in
/// which they were given, and no others. A row shows its command's id and text,
/// and how it stands: failed, done, or, without a result, running while the
/// session lives.
pub proof fn the_feed_shows_the_commands(
    entries: &Vec<SessionMessageEntry>,
    live: bool,
    feed: Vec<FeedEntry>,
    m: int,
    p: int,
)
    requires
        call_ensures(exec_feed, (entries, live), feed),
    ensures
        feed@.len() == commands_before(entries@, entries@.len() as int),
        0 <= m < entries@.len() && 0 <= p < entries@[m].parts@.len() && is_command(
            entries@[m].parts@[p],
        ) ==> {
            let at = commands_before(entries@, m) + commands_in(entries@[m].parts@, p);
            0 <= at < feed@.len() && row_shows_command(feed@[at]@, entries@[m].parts@[p], live)
        },
{
    the_feed_shows(entries@, live, m, p);
    assert(crate::terminal::feed::feed_views(feed@).len() == feed@.len());
    let at = commands_before(entries@, m) + commands_in(entries@[m].parts@, p);
    if 0 <= at < feed@.len() {
        assert(crate::terminal::feed::feed_views(feed@)[at] == feed@[at]@);
    }
}

/// The feed scrolls to a link's row, and else to its last row when there is
/// something new at its end.
pub proof fn the_feed_follows(
    prev: (usize, usize),
    cur: (usize, usize),
    anchor: Option<usize>,
    t: Option<usize>,
)
    requires
        call_ensures(follow_target, (prev, cur, anchor), t),
    ensures
        anchor is Some ==> t == anchor,
        anchor is None && (prev == cur || cur.0 == 0) ==> t is None,
        anchor is None && prev != cur && cur.0 > 0 ==> t is Some && t->0 == cur.0 - 1,
{
}

/// A row that was opened by hand is open; the last row is, unless it was closed by
/// hand; no other is.
pub proof fn the_last_row_is_open(
    pinned: &IdSet,
    dismissed: &IdSet,
    id: &str,
    last: bool,
    r: bool,
    fresh: bool,
)
    requires
        call_ensures(is_feed_row_expanded, (Some(pinned), Some(dismissed), id, last), r),
        call_ensures(is_feed_row_expanded, (None::<&IdSet>, None::<&IdSet>, id, last), fresh),
    ensures
        pinned@.contains_key(id@) ==> r,
        !pinned@.contains_key(id@) && !last ==> !r,
        !pinned@.contains_key(id@) && last ==> r == !dismissed@.contains_key(id@),
        fresh == last,
{
}

/// Output is shown by its last lines, twenty-four at most, behind a line that
/// counts those left out and one that says that more was cut when it came.
pub proof fn output_is_shown_by_its_end(output: &str, truncated: bool, out: Vec<String>)
    requires
        call_ensures(output_display_lines, (output, truncated), out),
    ensures
        ({
            let all = lines_of(output@);
            let shown = if all.len() < 24 {
                all.len() as int
            } else {
                24int
            };
            let left = all.len() - shown;
            let marks = (if truncated {
                1int
            } else {
                0int
            }) + (if left > 0 {
                1int
            } else {
                0int
            });
            &&& out@.len() == marks + shown
            &&& forall|k: int| 0 <= k < shown ==> (#[trigger] out@[marks + k])@ == all[left + k]
            &&& truncated ==> out@[0]@ == "\u{2026} truncated to the last "@ + decimal(64) + " KB"@
            &&& left > 0 ==> out@[marks - 1]@ == "\u{2026} "@ + decimal(left as nat)
                + " earlier lines"@
        }),
{
    let views = crate::terminal::feed::line_views(out@);
    assert(views.len() == out@.len());
    assert forall|i: int| 0 <= i < out@.len() implies views[i] == (#[trigger] out@[i])@ by {}
    if truncated {
        assert(views[0] == out@[0]@);
    }
    let all = lines_of(output@);
    let hidden = crate::terminal::feed::hidden_lines(all.len());
    if hidden > 0 {
        let m = (if truncated {
            1int
        } else {
            0int
        });
        assert(views[m] == out@[m]@);
    }
}

/// What a row shows under its command, and how high that is: nothing while it is
/// closed, and else its output or one line that stands for it.
pub proof fn a_row_shows_its_output(
    open: bool,
    status: FeedStatus,
    output: Option<&FeedOutput>,
    e: FeedExpansion,
    n: usize,
    note: Option<&'static str>,
)
    requires
        call_ensures(expansion, (open, status, output), e),
        call_ensures(tail_lines, (open, status, output), n),
        call_ensures(expansion_note, (&e,), note),
    ensures
        e is Collapsed <==> !open,
        open ==> (e is StillRunning <==> status is Running),
        open && !(status is Running) ==> {
            &&& e is Loading <==> output is None
            &&& e is Unavailable <==> output is Some && *output->0 is Unavailable
            &&& e is NoOutput <==> output is Some && *output->0 is Loaded
                && output->0->output@.len() == 0
            &&& e is Lines <==> output is Some && *output->0 is Loaded && output->0->output@.len()
                > 0
        },
        n == 0 <==> e is Collapsed || (e is Lines && e->Lines_0@.len() == 0),
        e is Lines ==> n == e->Lines_0@.len(),
        !(e is Lines) && !(e is Collapsed) ==> n == 1,
        e is StillRunning ==> note is Some && note->0@ == "still running\u{2026}"@,
        e is Loading ==> note is Some && note->0@ == "fetching output\u{2026}"@,
        e is Unavailable ==> note is Some && note->0@ == "output unavailable"@,
        e is NoOutput ==> note is Some && note->0@ == "(no output)"@,
        e is Lines || e is Collapsed ==> note is None,
{
    if e is Lines {
        assert(crate::terminal::feed::line_views(e->Lines_0@).len() == e->Lines_0@.len());
    }
}

/// The output that is shown is the output that came.
pub proof fn a_row_shows_the_lines_of_its_output(
    output: &FeedOutput,
    status: FeedStatus,
    e: FeedExpansion,
    text: &str,
    lines: Vec<String>,
)
    requires
        !(status is Running),
        *output is Loaded,
        output->output@.len() > 0,
        text@ == output->output@,
        call_ensures(expansion, (true, status, Some(output)), e),
        call_ensures(output_display_lines, (text, output->truncated), lines),
    ensures
        e is Lines,
        e->Lines_0@.len() == lines@.len(),
        forall|k: int| 0 <= k < lines@.len() ==> (#[trigger] e->Lines_0@[k])@ == lines@[k]@,
{
    let a = crate::terminal::feed::line_views(e->Lines_0@);
    let b = crate::terminal::feed::line_views(lines@);
    assert(a == b);
    assert(a.len() == e->Lines_0@.len() && b.len() == lines@.len());
    assert forall|k: int| 0 <= k < lines@.len() implies (#[trigger] e->Lines_0@[k])@
        == lines@[k]@ by {
        assert(a[k] == b[k]);
    }
}

/// A running command spins, a failed one is crossed, and both stand out; the
/// others do neither.
pub proof fn a_command_is_marked(status: FeedStatus, r: (FeedGlyph, bool))
    requires
        call_ensures(row_style, (status,), r),
    ensures
        r.0 is Spinner <==> status is Running,
        r.0 is Cross <==> status is Failed,
        r.1 <==> status is Running || status is Failed,
{
}

}
