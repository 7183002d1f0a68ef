use vstd::prelude::*;
use vstd::utf8::encode_utf8;

verus! {

/// The error slot of one caller: the message of the most recent failure, if any.
///
/// Each thread of the host owns one channel, so no two callers ever share it.
pub struct ErrorChannel {
    msg: Option<String>,
}

impl View for ErrorChannel {
    type V = Option<Seq<char>>;

    closed spec fn view(&self) -> Option<Seq<char>> {
        match self.msg {
            Some(s) => Some(s@),
            None => None,
        }
    }
}

/// The bytes that a copy of the message `m` into a buffer of `cap` bytes
/// carries before its terminator: at most `cap - 1` of them.
pub open spec fn copied_len(m: Seq<char>, cap: nat) -> nat {
    let n = encode_utf8(m).len();
    if n < cap - 1 { n } else { (cap - 1) as nat }
}

/// The buffer after copying message `m` into `buf`: the first bytes of its
/// encoding, then a zero byte, the rest of `buf` untouched.
pub open spec fn buffer_after_copy(buf: Seq<u8>, m: Seq<char>) -> Seq<u8>
    recommends
        buf.len() > 0,
{
    let n = copied_len(m, buf.len()) as int;
    Seq::new(
        buf.len(),
        |i: int|
            if i < n {
                encode_utf8(m)[i]
            } else if i == n {
                0u8
            } else {
                buf[i]
            },
    )
}

impl ErrorChannel {
    /// A channel that holds no error.
    pub fn new() -> (r: ErrorChannel)
        ensures
            r@ == None::<Seq<char>>,
    {
        ErrorChannel { msg: None }
    }

    /// Removes any stored error.
    pub fn clear(&mut self)
        ensures
            final(self)@ == None::<Seq<char>>,
    {
        self.msg = None;
    }

    /// The stored error, if there is one.
    pub fn last_error(&self) -> (r: Option<&String>)
        ensures
            match r {
                Some(s) => self@ == Some(s@),
                None => self@ == None::<Seq<char>>,
            },
    {
        self.msg.as_ref()
    }

    /// The stored error as UTF-8 bytes followed by one zero byte, ready to be
    /// handed out as a terminated string; `None` when no error is stored.
    pub fn last_error_terminated(&self) -> (r: Option<Vec<u8>>)
        ensures
            match r {
                Some(b) => self@ is Some && b@ == encode_utf8(self@->0).push(0u8),
                None => self@ == None::<Seq<char>>,
            },
    {
        match &self.msg {
            None => None,
            Some(s) => {
                let bytes = s.as_str().as_bytes();
                let mut out: Vec<u8> = Vec::new();
                let mut i: usize = 0;
                while i < bytes.len()
                    invariant
                        bytes@ == encode_utf8(s@),
                        i <= bytes@.len(),
                        out@ == bytes@.subrange(0, i as int),
                    decreases bytes@.len() - i,
                {
                    out.push(bytes[i]);
                    i = i + 1;
                }
                out.push(0u8);
                proof {
                    assert(bytes@.subrange(0, bytes@.len() as int) =~= bytes@);
                }
                Some(out)
            },
        }
    }

    /// Copies the stored error into `buf`, whose length is the capacity: at most
    /// `buf.len() - 1` bytes of the message, then a zero byte. Returns the number
    /// of message bytes copied. With an empty buffer or no stored error it
    /// writes nothing and returns 0.
    pub fn copy_last_error(&self, buf: &mut [u8]) -> (r: usize)
        ensures
            old(buf)@.len() == 0 || self@ is None ==> r == 0 && final(buf)@ == old(buf)@,
            old(buf)@.len() > 0 && self@ is Some ==> r == copied_len(self@->0, old(buf)@.len())
                && final(buf)@ == buffer_after_copy(old(buf)@, self@->0),
    {
        let cap = buf.len();
        if cap == 0 {
            return 0;
        }
        match &self.msg {
            None => 0,
            Some(s) => {
                let bytes = s.as_str().as_bytes();
                let n: usize = if bytes.len() < cap - 1 { bytes.len() } else { cap - 1 };
                let ghost before = buf@;
                let mut i: usize = 0;
                while i < n
                    invariant
                        bytes@ == encode_utf8(s@),
                        n == copied_len(s@, cap as nat),
                        n < cap,
                        n <= bytes@.len(),
                        i <= n,
                        buf@.len() == cap,
                        before.len() == cap,
                        forall|j: int| 0 <= j < i ==> buf@[j] == bytes@[j],
                        forall|j: int| i <= j < cap ==> buf@[j] == before[j],
                    decreases n - i,
                {
                    buf[i] = bytes[i];
                    i = i + 1;
                }
                buf[n] = 0u8;
                proof {
                    assert(buf@ =~= buffer_after_copy(before, s@));
                }
                n
            },
        }
    }
}

/// Copying any message into a one-byte buffer copies no message byte and
/// leaves just the terminator.
pub proof fn lemma_copy_into_one_byte(buf: Seq<u8>, m: Seq<char>)
    requires
        buf.len() == 1,
    ensures
        copied_len(m, buf.len()) == 0,
        buffer_after_copy(buf, m) == seq![0u8],
{
    assert(buffer_after_copy(buf, m) =~= seq![0u8]);
}

/// Stores `msg` as the channel's error, replacing any earlier one.
pub fn set_err(channel: &mut ErrorChannel, msg: String)
    ensures
        final(channel)@ == Some(msg@),
{
    channel.msg = Some(msg);
}

} // verus!
