//! The command listing's in-memory work: turning fetched command rows
//! into their API form (decimal ids rendered into resource paths) and
//! aligning a fetched batch with the id list that requested it.

use vstd::prelude::*;

use crate::util::clone_string_vec;
use crate::util::push_deep;

verus! {

broadcast use vstd::seq_lib::group_seq_lib_default;

/// A command row as fetched: the creation instant as a UNIX timestamp
/// (non-leap seconds and subsecond nanoseconds), ids and flags.
#[derive(Clone, Debug, PartialEq)]
pub struct CommandTmpRecord {
    pub cancelled: bool,
    pub complete: bool,
    pub created_at_secs: i64,
    pub created_at_nanos: u32,
    pub errored: bool,
    pub id: i32,
    pub job_ids: Option<Vec<i32>>,
    pub message: String,
}

/// Spec-level image of a [`CommandTmpRecord`].
pub struct CommandTmpRecordView {
    pub cancelled: bool,
    pub complete: bool,
    pub created_at_secs: i64,
    pub created_at_nanos: u32,
    pub errored: bool,
    pub id: i32,
    pub job_ids: Option<Seq<i32>>,
    pub message: Seq<char>,
}

impl DeepView for CommandTmpRecord {
    type V = CommandTmpRecordView;

    open spec fn deep_view(&self) -> CommandTmpRecordView {
        CommandTmpRecordView {
            cancelled: self.cancelled,
            complete: self.complete,
            created_at_secs: self.created_at_secs,
            created_at_nanos: self.created_at_nanos,
            errored: self.errored,
            id: self.id,
            job_ids: match self.job_ids {
                Some(ref v) => Some(v@),
                None => None,
            },
            message: self.message@,
        }
    }
}

/// A command in its API form, job and resource paths rendered.
#[derive(Clone, Debug, PartialEq)]
pub struct Command {
    pub id: i32,
    pub cancelled: bool,
    pub complete: bool,
    pub errored: bool,
    pub created_at: String,
    pub jobs: Vec<String>,
    pub logs: String,
    pub message: String,
    pub resource_uri: String,
}

/// Spec-level image of a [`Command`].
pub struct CommandView {
    pub id: i32,
    pub cancelled: bool,
    pub complete: bool,
    pub errored: bool,
    pub created_at: Seq<char>,
    pub jobs: Seq<Seq<char>>,
    pub logs: Seq<char>,
    pub message: Seq<char>,
    pub resource_uri: Seq<char>,
}

impl DeepView for Command {
    type V = CommandView;

    open spec fn deep_view(&self) -> CommandView {
        CommandView {
            id: self.id,
            cancelled: self.cancelled,
            complete: self.complete,
            errored: self.errored,
            created_at: self.created_at@,
            jobs: self.jobs.deep_view(),
            logs: self.logs@,
            message: self.message@,
            resource_uri: self.resource_uri@,
        }
    }
}

/// The character of one decimal digit.
pub open spec fn digit_char(d: int) -> char {
    if d == 0 {
        '0'
    } else if d == 1 {
        '1'
    } else if d == 2 {
        '2'
    } else if d == 3 {
        '3'
    } else if d == 4 {
        '4'
    } else if d == 5 {
        '5'
    } else if d == 6 {
        '6'
    } else if d == 7 {
        '7'
    } else if d == 8 {
        '8'
    } else {
        '9'
    }
}

/// The decimal digits of a non-negative number, most significant first;
/// empty for zero.
pub open spec fn digits_of(n: int) -> Seq<char>
    decreases n,
{
    if n <= 0 {
        Seq::empty()
    } else {
        digits_of(n / 10).push(digit_char(n % 10))
    }
}

/// The usual decimal rendering of an integer.
pub open spec fn decimal_of(n: int) -> Seq<char> {
    if n == 0 {
        seq!['0']
    } else if n < 0 {
        seq!['-'] + digits_of(-n)
    } else {
        digits_of(n)
    }
}

/// One decimal digit as text.
fn digit_str(d: u32) -> (r: &'static str)
    requires
        d < 10,
    ensures
        r@ == seq![digit_char(d as int)],
{
    if d == 0 {
        proof {
            reveal_strlit("0");
            assert("0"@ =~= seq![digit_char(0)]);
        }
        "0"
    } else if d == 1 {
        proof {
            reveal_strlit("1");
            assert("1"@ =~= seq![digit_char(1)]);
        }
        "1"
    } else if d == 2 {
        proof {
            reveal_strlit("2");
            assert("2"@ =~= seq![digit_char(2)]);
        }
        "2"
    } else if d == 3 {
        proof {
            reveal_strlit("3");
            assert("3"@ =~= seq![digit_char(3)]);
        }
        "3"
    } else if d == 4 {
        proof {
            reveal_strlit("4");
            assert("4"@ =~= seq![digit_char(4)]);
        }
        "4"
    } else if d == 5 {
        proof {
            reveal_strlit("5");
            assert("5"@ =~= seq![digit_char(5)]);
        }
        "5"
    } else if d == 6 {
        proof {
            reveal_strlit("6");
            assert("6"@ =~= seq![digit_char(6)]);
        }
        "6"
    } else if d == 7 {
        proof {
            reveal_strlit("7");
            assert("7"@ =~= seq![digit_char(7)]);
        }
        "7"
    } else if d == 8 {
        proof {
            reveal_strlit("8");
            assert("8"@ =~= seq![digit_char(8)]);
        }
        "8"
    } else {
        proof {
            reveal_strlit("9");
            assert("9"@ =~= seq![digit_char(9)]);
        }
        "9"
    }
}

/// The decimal digits of `n`, empty for zero.
fn u64_digits(n: u64) -> (r: String)
    ensures
        r@ == digits_of(n as int),
    decreases n,
{
    if n == 0 {
        String::new()
    } else {
        let mut s = u64_digits(n / 10);
        s.append(digit_str((n % 10) as u32));
        proof {
            assert(digits_of((n / 10) as int) + seq![digit_char((n % 10) as int)] =~= digits_of(
                (n / 10) as int,
            ).push(digit_char((n % 10) as int)));
        }
        s
    }
}

/// Render an unsigned number in decimal.
pub fn u64_decimal(n: u64) -> (r: String)
    ensures
        r@ == decimal_of(n as int),
{
    if n == 0 {
        proof {
            reveal_strlit("0");
            assert("0"@ =~= seq!['0']);
        }
        "0".to_owned()
    } else {
        u64_digits(n)
    }
}

/// Render an integer in decimal.
pub fn i32_decimal(x: i32) -> (r: String)
    ensures
        r@ == decimal_of(x as int),
{
    if x == 0 {
        proof {
            reveal_strlit("0");
            assert("0"@ =~= seq!['0']);
        }
        "0".to_owned()
    } else if x > 0 {
        u64_digits(x as u64)
    } else {
        let mag = -(x as i64);
        let m = mag as u64;
        let mut s = "-".to_owned();
        let digits = u64_digits(m);
        s.append(digits.as_str());
        proof {
            reveal_strlit("-");
            assert("-"@ =~= seq!['-']);
        }
        s
    }
}

/// The API path of one job.
pub open spec fn job_url(id: i32) -> Seq<char> {
    "/api/job/"@ + decimal_of(id as int) + "/"@
}

/// The API paths of a job list, in order.
pub open spec fn job_urls(ids: Seq<i32>) -> Seq<Seq<char>> {
    ids.map_values(|i: i32| job_url(i))
}

/// The API path of one command.
pub open spec fn command_url(id: i32) -> Seq<char> {
    "/api/command/"@ + decimal_of(id as int) + "/"@
}

/// The microsecond-precision timestamp text of one UNIX instant, as the
/// calendar rendering produces it.  Named, not written out: the calendar
/// arithmetic behind it is the date library's, and the text depends on
/// the instant alone.
pub uninterp spec fn timestamp_text(secs: i64, nanos: u32) -> Seq<char>;

/// Relies on chrono's `DateTime::from_timestamp` and `format`: the
/// rendered text depends on the timestamp alone, and a timestamp with a
/// plausible date and a subsecond nanosecond count is in range (its day
/// number fits the date type, per the constructor's source).
#[verifier::external_body]
fn format_timestamp(secs: i64, nanos: u32) -> (r: Option<String>)
    ensures
        r matches Some(s) ==> s@ == timestamp_text(secs, nanos),
        0 <= secs < 4_102_444_800 && nanos < 1_000_000_000 ==> r is Some,
{
    chrono::DateTime::from_timestamp(secs, nanos)
        .map(|t| t.format("%Y-%m-%dT%T%.6f").to_string())
}

/// The API form of one fetched command row: job and resource paths
/// rendered from the row's ids, the timestamp text as given, the log
/// text left empty, everything else carried over.
pub open spec fn command_of(x: CommandTmpRecordView, created_at: Seq<char>) -> CommandView {
    CommandView {
        id: x.id,
        cancelled: x.cancelled,
        complete: x.complete,
        errored: x.errored,
        created_at: created_at,
        jobs: match x.job_ids {
            Some(ids) => job_urls(ids),
            None => Seq::empty(),
        },
        logs: Seq::empty(),
        message: x.message,
        resource_uri: command_url(x.id),
    }
}

/// Render one job's API path.
fn job_url_exec(id: i32) -> (r: String)
    ensures
        r@ == job_url(id),
{
    let mut s = "/api/job/".to_owned();
    let digits = i32_decimal(id);
    s.append(digits.as_str());
    s.append("/");
    s
}

/// Assemble one command's API form from its fetched row and its already
/// rendered timestamp text.
pub fn command_from_parts(x: &CommandTmpRecord, created_at: String) -> (r: Command)
    ensures
        r.deep_view() == command_of(x.deep_view(), created_at@),
{
    let jobs = match &x.job_ids {
        Some(ids) => {
            let mut out: Vec<String> = Vec::new();
            let mut i: usize = 0;
            while i < ids.len()
                invariant
                    i <= ids.len(),
                    out.deep_view() == job_urls(ids@.take(i as int)),
                decreases ids.len() - i,
            {
                let url = job_url_exec(ids[i]);
                push_deep(&mut out, url);
                proof {
                    let pre = ids@.take(i as int);
                    let post = ids@.take(i + 1 as int);
                    assert(post.drop_last() =~= pre);
                    assert(post.last() == ids@[i as int]);
                    assert(job_urls(post) =~= job_urls(pre).push(job_url(ids@[i as int])));
                }
                i += 1;
            }
            proof {
                assert(ids@.take(ids@.len() as int) =~= ids@);
                assert(x.deep_view().job_ids == Some(ids@));
            }
            out
        },
        None => {
            let empty: Vec<String> = Vec::new();
            proof {
                assert(empty.deep_view() =~= Seq::<Seq<char>>::empty());
                assert(x.deep_view().job_ids is None);
            }
            empty
        },
    };
    let mut uri = "/api/command/".to_owned();
    let digits = i32_decimal(x.id);
    uri.append(digits.as_str());
    uri.append("/");
    Command {
        id: x.id,
        cancelled: x.cancelled,
        complete: x.complete,
        errored: x.errored,
        created_at,
        jobs,
        logs: String::new(),
        message: x.message.clone(),
        resource_uri: uri,
    }
}

/// Turn one fetched command row into its API form, rendering the
/// creation instant.  Whatever text the rendering hands back becomes the
/// record's timestamp text; an instant the calendar refuses leaves it
/// empty, and a plausible one is never refused.
pub fn to_command(x: &CommandTmpRecord) -> (r: Command)
    ensures
        r.deep_view() == command_of(x.deep_view(), r.created_at@),
        r.created_at@ == timestamp_text(x.created_at_secs, x.created_at_nanos) || r.created_at@
            =~= Seq::<char>::empty(),
        0 <= x.created_at_secs < 4_102_444_800 && x.created_at_nanos < 1_000_000_000
            ==> r.created_at@ == timestamp_text(x.created_at_secs, x.created_at_nanos),
{
    let created_at = match format_timestamp(x.created_at_secs, x.created_at_nanos) {
        Some(s) => s,
        None => String::new(),
    };
    command_from_parts(x, created_at)
}

/// The last fetched command with the given id, if any: later rows
/// shadow earlier ones, as a lookup keyed by id over the batch would.
pub open spec fn last_with_id(cmds: Seq<CommandView>, id: i32) -> Option<CommandView>
    decreases cmds.len(),
{
    if cmds.len() == 0 {
        None
    } else if cmds.last().id == id {
        Some(cmds.last())
    } else {
        last_with_id(cmds.drop_last(), id)
    }
}

/// The fetched batch aligned with the requesting id list: position `p`
/// carries the command for `ids[p]`, or nothing when that id matched no
/// fetched command or already claimed one at an earlier position.
pub open spec fn matched_commands(cmds: Seq<CommandView>, ids: Seq<i32>) -> Seq<
    Option<CommandView>,
> {
    Seq::new(
        ids.len(),
        |p: int|
            if !ids.take(p).contains(ids[p]) {
                last_with_id(cmds, ids[p])
            } else {
                None
            },
    )
}

/// A field-for-field copy of one command.
fn clone_command(c: &Command) -> (r: Command)
    ensures
        r.deep_view() == c.deep_view(),
{
    Command {
        id: c.id,
        cancelled: c.cancelled,
        complete: c.complete,
        errored: c.errored,
        created_at: c.created_at.clone(),
        jobs: clone_string_vec(&c.jobs),
        logs: c.logs.clone(),
        message: c.message.clone(),
        resource_uri: c.resource_uri.clone(),
    }
}

/// The index of the last fetched command with the given id, if any.
fn last_index_with_id(cmds: &Vec<Command>, id: i32) -> (r: Option<usize>)
    ensures
        r matches Some(i) ==> i < cmds@.len() && last_with_id(cmds.deep_view(), id) == Some(
            cmds.deep_view()[i as int],
        ),
        r is None ==> last_with_id(cmds.deep_view(), id) is None,
{
    let mut best: Option<usize> = None;
    let mut k: usize = 0;
    while k < cmds.len()
        invariant
            k <= cmds.len(),
            best matches Some(b) ==> b < k && last_with_id(
                cmds.deep_view().take(k as int),
                id,
            ) == Some(cmds.deep_view()[b as int]),
            best is None ==> last_with_id(cmds.deep_view().take(k as int), id) is None,
        decreases cmds.len() - k,
    {
        proof {
            let pre = cmds.deep_view().take(k as int);
            let post = cmds.deep_view().take(k + 1 as int);
            assert(post.drop_last() =~= pre);
            assert(post.last() == cmds.deep_view()[k as int]);
        }
        if cmds[k].id == id {
            best = Some(k);
        }
        k += 1;
    }
    proof {
        assert(cmds.deep_view().take(cmds.deep_view().len() as int) =~= cmds.deep_view());
    }
    best
}

/// Whether `ids[p]` already occurs at an earlier position.
fn id_seen_before(ids: &Vec<i32>, p: usize) -> (r: bool)
    requires
        p < ids@.len(),
    ensures
        r == ids@.take(p as int).contains(ids@[p as int]),
{
    let wanted = ids[p];
    let mut k: usize = 0;
    while k < p
        invariant
            k <= p,
            p < ids@.len(),
            wanted == ids@[p as int],
            forall|j: int| 0 <= j < k ==> ids@[j] != wanted,
        decreases p - k,
    {
        if ids[k] == wanted {
            assert(ids@.take(p as int)[k as int] == wanted);
            return true;
        }
        k += 1;
    }
    false
}

/// Align a fetched command batch with the id list that requested it: the
/// returned list matches the input ids position for position, carrying
/// nothing where an id matched no command or repeated an earlier
/// position.
pub fn commands_by_ids(cmds: &Vec<Command>, ids: &Vec<i32>) -> (r: Vec<Option<Command>>)
    ensures
        r@.len() == ids@.len(),
        r.deep_view() == matched_commands(cmds.deep_view(), ids@),
{
    let mut out: Vec<Option<Command>> = Vec::new();
    let mut p: usize = 0;
    while p < ids.len()
        invariant
            p <= ids.len(),
            out@.len() == p,
            forall|k: int|
                0 <= k < p ==> out.deep_view()[k] == matched_commands(cmds.deep_view(), ids@)[k],
        decreases ids.len() - p,
    {
        let row: Option<Command> = if id_seen_before(ids, p) {
            None
        } else {
            match last_index_with_id(cmds, ids[p]) {
                Some(i) => Some(clone_command(&cmds[i])),
                None => None,
            }
        };
        proof {
            assert(row.deep_view() == matched_commands(cmds.deep_view(), ids@)[p as int]);
        }
        push_deep(&mut out, row);
        p += 1;
    }
    proof {
        assert(out.deep_view() =~= matched_commands(cmds.deep_view(), ids@));
    }
    out
}

} // verus!
