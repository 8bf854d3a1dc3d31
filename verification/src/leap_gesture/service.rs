//! The connection to the tracking service: what to do on each turn, and which sockets are its.

use crate::text;
use vstd::prelude::*;
use vstd::string::*;

verus! {

/// Pause before a new connection attempt, in milliseconds.
pub const RETRY_MS: u64 = 5_000;

/// Pause after an unexpected poll error, so that a persistent one can't busy-spin.
pub const BACKOFF_MS: u64 = 100;

/// What came of the last thing the connection thread did.
#[derive(Debug, Clone, Copy, PartialEq, Eq, Structural)]
pub enum LinkOutcome {
    /// The thread has just started, or a pause before a connection attempt is over.
    ReadyToConnect,
    /// No connection could be created.
    CreateFailed,
    /// The connection could not be opened.
    OpenFailed,
    /// The connection is open.
    Opened,
    /// Polling brought a tracking frame.
    Tracking,
    /// Polling brought some other message.
    OtherMessage,
    /// The frame was handed to the compositor.
    FrameSent,
    /// The compositor's end of the channel is gone.
    ReceiverGone,
    /// Quiet periods are normal: the service stops streaming when no hands are in view.
    Timeout,
    /// The expected state for the first polls right after opening.
    HandshakeIncomplete,
    NotConnected,
    UnexpectedClosed,
    /// Polling failed in some other way.
    OtherError,
    /// The pause after an unexpected poll error is over.
    BackedOff,
}

/// What the connection thread does next.
#[derive(Debug, Clone, Copy, PartialEq, Eq, Structural)]
pub enum LinkStep {
    /// Create and open a connection.
    Connect,
    /// Pause, drop the connection, then be ready to connect.
    PauseAndReconnect { pause_ms: u64 },
    /// Keep the service's sockets from being inherited, then poll.
    GuardSocketsAndPoll,
    /// Poll the connection.
    Poll,
    /// Hand the frame to the compositor.
    SendFrame,
    /// Keep the connection, pause, then have backed off.
    BackOff { pause_ms: u64 },
    /// End the thread.
    Stop,
}

/// What the connection thread does after an outcome.
pub fn next_link_step(outcome: LinkOutcome) -> (step: LinkStep)
    ensures
        step is Connect <==> outcome is ReadyToConnect,
        step is GuardSocketsAndPoll <==> outcome is Opened,
        step is SendFrame <==> outcome is Tracking,
        step is Stop <==> outcome is ReceiverGone,
        // The service is absent or really gone.
        step is PauseAndReconnect <==> outcome is CreateFailed || outcome is OpenFailed
            || outcome is NotConnected || outcome is UnexpectedClosed,
        step matches LinkStep::PauseAndReconnect { pause_ms } ==> pause_ms == RETRY_MS && pause_ms == 5_000,
        step is BackOff <==> outcome is OtherError,
        step matches LinkStep::BackOff { pause_ms } ==> pause_ms == BACKOFF_MS && pause_ms == 100,
        step is Poll <==> outcome is OtherMessage || outcome is FrameSent || outcome is Timeout
            || outcome is HandshakeIncomplete || outcome is BackedOff,
{
    match outcome {
        LinkOutcome::ReadyToConnect => LinkStep::Connect,
        LinkOutcome::CreateFailed | LinkOutcome::OpenFailed => LinkStep::PauseAndReconnect {
            pause_ms: RETRY_MS,
        },
        LinkOutcome::Opened => LinkStep::GuardSocketsAndPoll,
        LinkOutcome::Tracking => LinkStep::SendFrame,
        LinkOutcome::FrameSent | LinkOutcome::OtherMessage => LinkStep::Poll,
        LinkOutcome::ReceiverGone => LinkStep::Stop,
        LinkOutcome::Timeout | LinkOutcome::HandshakeIncomplete => LinkStep::Poll,
        LinkOutcome::NotConnected | LinkOutcome::UnexpectedClosed => LinkStep::PauseAndReconnect {
            pause_ms: RETRY_MS,
        },
        LinkOutcome::OtherError => LinkStep::BackOff { pause_ms: BACKOFF_MS },
        LinkOutcome::BackedOff => LinkStep::Poll,
    }
}

/// How the kernel's socket table spells the service's TCP port, 12345, after an address.
pub open spec fn port_suffix() -> Seq<char> {
    ":3039"@
}

/// Length of the text up to its first line feed.
pub open spec fn line_len(s: Seq<char>) -> nat
    decreases s.len(),
{
    if s.len() == 0 || s[0] == '\n' {
        0
    } else {
        1 + line_len(s.drop_first())
    }
}

/// The text after its first line.
pub open spec fn after_line(s: Seq<char>) -> Seq<char> {
    s.skip(line_len(s) as int + 1)
}

/// The inode that a line of the socket table names, if its socket is connected to the service:
/// fields are `sl`, `local_address`, `rem_address`, ..., with the inode at index 9.
pub open spec fn line_inode(line: Seq<char>) -> Option<Seq<char>> {
    let fields = text::words(line);
    if fields.len() > 9 && port_suffix().is_suffix_of(fields[2]) {
        Some(fields[9])
    } else {
        None
    }
}

/// The inodes that the lines of a text name, in order.
pub open spec fn inodes_of_lines(s: Seq<char>) -> Seq<Seq<char>>
    decreases s.len(),
{
    if s.len() == 0 {
        seq![]
    } else {
        let here = match line_inode(s.take(line_len(s) as int)) {
            Some(inode) => seq![inode],
            None => seq![],
        };
        if line_len(s) < s.len() {
            here + inodes_of_lines(after_line(s))
        } else {
            here
        }
    }
}

/// The inodes that a socket table names, past its heading line.
pub open spec fn inodes_of_table(s: Seq<char>) -> Seq<Seq<char>> {
    if line_len(s) < s.len() {
        inodes_of_lines(after_line(s))
    } else {
        seq![]
    }
}

fn ends_with_port(field: &Vec<char>) -> (r: bool)
    ensures
        r == port_suffix().is_suffix_of(field@),
{
    let suffix: Vec<char> = text::chars_of(":3039");
    let n: usize = field.len();
    let m: usize = suffix.len();
    if n < m {
        return false;
    }
    let mut i: usize = 0;
    while i < m
        invariant
            n == field@.len(),
            m == suffix@.len(),
            suffix@ == port_suffix(),
            m <= n,
            i <= m,
            forall|j: int| 0 <= j < i ==> field@[n - m + j] == suffix@[j],
        decreases m - i,
    {
        if field[n - m + i] != suffix[i] {
            assert(field@.subrange(n - m, n as int)[i as int] != suffix@[i as int]);
            return false;
        }
        i = i + 1;
    }
    assert(field@.subrange(n - m, n as int) =~= suffix@);
    true
}

/// The characters of `s` from `from` up to the next line feed, and where that is.
fn take_line(s: &Vec<char>, from: usize) -> (r: (Vec<char>, usize))
    requires
        from <= s@.len(),
    ensures
        r.1 == from + line_len(s@.skip(from as int)),
        from <= r.1 <= s@.len(),
        r.0@ == s@.skip(from as int).take(r.1 - from),
{
    let mut line: Vec<char> = Vec::new();
    let n: usize = s.len();
    let mut i: usize = from;
    assert(line@ =~= s@.subrange(from as int, i as int));
    while i < n && s[i] != '\n'
        invariant
            n == s@.len(),
            from <= i <= n,
            line@ == s@.subrange(from as int, i as int),
            line_len(s@.skip(from as int)) == (i - from) + line_len(s@.skip(i as int)),
        decreases n - i,
    {
        assert(s@.skip(i as int).drop_first() =~= s@.skip(i + 1));
        line.push(s[i]);
        i = i + 1;
        assert(line@ =~= s@.subrange(from as int, i as int));
    }
    assert(line_len(s@.skip(i as int)) == 0);
    assert(line@ =~= s@.skip(from as int).take(i - from));
    (line, i)
}

/// The inodes of the sockets connected to the tracking service, from the text of the kernel's
/// socket table.
pub fn leap_socket_inodes(tcp: &str) -> (inodes: Vec<Vec<char>>)
    ensures
        text::spelled(inodes@) == inodes_of_table(tcp@),
{
    let s: Vec<char> = text::chars_of(tcp);
    let n: usize = s.len();
    let mut inodes: Vec<Vec<char>> = Vec::new();
    assert(text::spelled(inodes@) =~= Seq::<Seq<char>>::empty());
    assert(s@.skip(0) =~= s@);
    let (_, heading_end) = take_line(&s, 0);
    if heading_end >= n {
        return inodes;
    }
    let mut i: usize = heading_end + 1;
    assert(s@.skip(i as int) =~= after_line(s@));
    while i < n
        invariant
            n == s@.len(),
            i <= n,
            text::spelled(inodes@) + inodes_of_lines(s@.skip(i as int)) == inodes_of_table(s@),
        decreases n - i,
    {
        let ghost tail = s@.skip(i as int);
        let ghost before = text::spelled(inodes@);
        let (line, end) = take_line(&s, i);
        let mut fields: Vec<Vec<char>> = text::split_words(&line);
        let ghost here = match line_inode(tail.take(line_len(tail) as int)) {
            Some(inode) => seq![inode],
            None => seq![],
        };
        if fields.len() > 9 {
            assert(text::spelled(fields@)[2] == fields@[2]@);
            assert(text::spelled(fields@)[9] == fields@[9]@);
            if ends_with_port(&fields[2]) {
                let inode: Vec<char> = fields.swap_remove(9);
                inodes.push(inode);
            }
        }
        assert(text::spelled(inodes@) =~= before + here);
        if end < n {
            assert(s@.skip(end + 1) =~= after_line(tail));
            assert(before + here + inodes_of_lines(after_line(tail)) =~= before + (here
                + inodes_of_lines(after_line(tail))));
            i = end + 1;
        } else {
            assert(s@.skip(n as int) =~= Seq::<char>::empty());
            assert(before + here + inodes_of_lines(s@.skip(n as int)) =~= before + here);
            i = n;
        }
    }
    assert(s@.skip(n as int) =~= Seq::<char>::empty());
    assert(text::spelled(inodes@) + inodes_of_lines(s@.skip(n as int)) =~= text::spelled(
        inodes@,
    ));
    inodes
}

/// How a file descriptor's link spells a socket.
pub open spec fn socket_link(inode: Seq<char>) -> Seq<char> {
    "socket:["@ + inode + "]"@
}

fn same_chars(a: &Vec<char>, b: &Vec<char>) -> (r: bool)
    ensures
        r == (a@ == b@),
{
    let n: usize = a.len();
    if n != b.len() {
        return false;
    }
    let mut i: usize = 0;
    while i < n
        invariant
            n == a@.len(),
            n == b@.len(),
            i <= n,
            forall|j: int| 0 <= j < i ==> a@[j] == b@[j],
        decreases n - i,
    {
        if a[i] != b[i] {
            return false;
        }
        i = i + 1;
    }
    assert(a@ =~= b@);
    true
}

/// Whether a file descriptor's link names one of the sockets.
pub fn is_leap_socket(target: &str, inodes: &Vec<Vec<char>>) -> (r: bool)
    ensures
        r == exists|i: int|
            0 <= i < inodes@.len() && target@ == socket_link((#[trigger] inodes@[i])@),
        r == exists|i: int|
            0 <= i < inodes@.len() && target@ == "socket:["@ + (#[trigger] inodes@[i])@ + "]"@,
{
    let target_chars: Vec<char> = text::chars_of(target);
    let mut i: usize = 0;
    while i < inodes.len()
        invariant
            i <= inodes@.len(),
            target_chars@ == target@,
            forall|j: int| 0 <= j < i ==> target@ != socket_link((#[trigger] inodes@[j])@),
        decreases inodes@.len() - i,
    {
        let mut link: Vec<char> = text::chars_of("socket:[");
        let mut k: usize = 0;
        let m: usize = inodes[i].len();
        while k < m
            invariant
                i < inodes@.len(),
                m == inodes@[i as int]@.len(),
                k <= m,
                link@ == "socket:["@ + inodes@[i as int]@.take(k as int),
            decreases m - k,
        {
            link.push(inodes[i][k]);
            k = k + 1;
            assert(link@ =~= "socket:["@ + inodes@[i as int]@.take(k as int));
        }
        assert(inodes@[i as int]@.take(m as int) =~= inodes@[i as int]@);
        link.push(']');
        proof {
            reveal_strlit("]");
        }
        assert(link@ =~= socket_link(inodes@[i as int]@));
        if same_chars(&target_chars, &link) {
            return true;
        }
        i = i + 1;
    }
    false
}

proof fn line_ends(line: Seq<char>, rest: Seq<char>)
    requires
        !line.contains('\n'),
        rest.len() > 0 ==> rest[0] == '\n',
    ensures
        line_len(line + rest) == line.len(),
    decreases line.len(),
{
    if line.len() > 0 {
        assert(line.contains(line[0]));
        assert(!line.drop_first().contains('\n')) by {
            if line.drop_first().contains('\n') {
                let i = choose|i: int|
                    0 <= i < line.drop_first().len() && line.drop_first()[i] == '\n';
                assert(line[i + 1] == '\n');
            }
        }
        line_ends(line.drop_first(), rest);
        assert((line + rest).drop_first() =~= line.drop_first() + rest);
    } else {
        assert(line + rest =~= rest);
    }
}

/// The inode of a line: its tenth word, if its third word ends in the service's port.
pub open spec fn inode_in(line: Seq<char>) -> Seq<Seq<char>> {
    let fields = text::words(line);
    if fields.len() >= 10 && exists|address: Seq<char>| fields[2] == #[trigger] (address
        + ":3039"@) {
        seq![fields[9]]
    } else {
        seq![]
    }
}

proof fn line_inode_is_inode_in(line: Seq<char>)
    ensures
        inode_in(line) == match line_inode(line) {
            Some(inode) => seq![inode],
            None => seq![],
        },
{
    let fields = text::words(line);
    if fields.len() > 9 {
        let field = fields[2];
        let port = ":3039"@;
        if port.is_suffix_of(field) {
            let address = field.take(field.len() - port.len());
            assert(field =~= address + port);
        }
        if exists|address: Seq<char>| field == #[trigger] (address + port) {
            let address = choose|address: Seq<char>| field == #[trigger] (address + port);
            assert(port =~= field.subrange((field.len() - port.len()) as int, field.len() as int));
        }
    }
}

/// A socket table is read line by line after its heading: each line gives its inode, if it has
/// one, whatever the other lines hold.
pub proof fn tables_are_read_line_by_line(heading: Seq<char>, line: Seq<char>, rest: Seq<char>)
    requires
        !heading.contains('\n'),
        !line.contains('\n'),
    ensures
        inodes_of_table(heading) == Seq::<Seq<char>>::empty(),
        inodes_of_table(heading + seq!['\n'] + line) == inode_in(line),
        inodes_of_table(heading + seq!['\n'] + (line + seq!['\n'] + rest)) == inode_in(line)
            + inodes_of_lines(rest),
        inodes_of_table(heading + seq!['\n'] + rest) == inodes_of_lines(rest),
        inodes_of_lines(line + seq!['\n'] + rest) == inode_in(line) + inodes_of_lines(rest),
{
    let feed = seq!['\n'];
    line_inode_is_inode_in(line);
    line_ends(heading, Seq::empty());
    assert(heading + Seq::<char>::empty() =~= heading);
    assert forall|tail: Seq<char>| #[trigger]
        inodes_of_table(heading + feed + tail) == inodes_of_lines(tail) by {
        line_ends(heading, feed + tail);
        assert(heading + feed + tail =~= heading + (feed + tail));
        assert(after_line(heading + feed + tail) =~= tail);
    }
    line_ends(line, Seq::empty());
    assert(line + Seq::<char>::empty() =~= line);
    if line.len() == 0 {
        assert(text::words(line).len() == 0);
    } else {
        assert(line.take(line.len() as int) =~= line);
    }
    let s = line + feed + rest;
    line_ends(line, feed + rest);
    assert(s =~= line + (feed + rest));
    assert(s.take(line.len() as int) =~= line);
    assert(after_line(s) =~= rest);
}

} // verus!
