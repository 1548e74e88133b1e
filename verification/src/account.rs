//! The IMAP account: an ordered list of folders holding raw mails.
//!
//! A mail's raw bytes split on the first empty line (`CRLF CRLF`) into
//! header (separator included) and body.

use vstd::prelude::*;

use crate::wire::{append_bytes, bytes_of, is_sub_at};

verus! {

/// The empty-line separator occurs in `data` at position `i`.
pub open spec fn sep_at(data: Seq<u8>, i: int) -> bool {
    is_sub_at(data, bytes_of("\r\n\r\n"), i)
}

/// `data` holds an empty line somewhere.
pub open spec fn has_sep(data: Seq<u8>) -> bool {
    exists|i: int| sep_at(data, i)
}

/// `i` is the first position of the empty-line separator.
pub open spec fn is_first_sep(data: Seq<u8>, i: int) -> bool {
    sep_at(data, i) && forall|j: int| 0 <= j < i ==> !sep_at(data, j)
}

/// The first position of the empty-line separator.
pub open spec fn sep_index(data: Seq<u8>) -> int {
    choose|i: int| is_first_sep(data, i)
}

/// The header bytes of a raw mail: everything up to and including the
/// first empty line.
pub open spec fn header_of(data: Seq<u8>) -> Seq<u8> {
    data.subrange(0, sep_index(data) + 4)
}

/// The body bytes of a raw mail: everything after the first empty line.
pub open spec fn body_of(data: Seq<u8>) -> Seq<u8> {
    data.skip(sep_index(data) + 4)
}

/// If a separator occurs at all, a first one exists.
pub proof fn lemma_first_sep_exists(data: Seq<u8>, w: int)
    requires
        sep_at(data, w),
    ensures
        exists|i: int| is_first_sep(data, i),
    decreases w,
{
    if forall|j: int| 0 <= j < w ==> !sep_at(data, j) {
        assert(is_first_sep(data, w));
    } else {
        let j = choose|j: int| 0 <= j < w && sep_at(data, j);
        lemma_first_sep_exists(data, j);
    }
}

/// The first separator position is unique.
pub proof fn lemma_first_sep_unique(data: Seq<u8>, i: int, j: int)
    requires
        is_first_sep(data, i),
        is_first_sep(data, j),
    ensures
        i == j,
{
}

/// One stored message.
#[derive(Debug, Clone)]
pub struct Mail {
    pub uid: u32,
    pub data: Vec<u8>,
}

impl Mail {
    /// A mail is well formed when its uid is positive (sequence numbers
    /// and uids start at one) and its raw bytes contain an empty line.
    pub open spec fn wf(&self) -> bool {
        self.uid >= 1 && has_sep(self.data@) && self.data@.len() <= u32::MAX
    }

    /// Wrap raw message bytes.
    pub fn new(uid: u32, data: Vec<u8>) -> (r: Mail)
        requires
            uid >= 1,
            has_sep(data@),
            data@.len() <= u32::MAX,
        ensures
            r.uid == uid,
            r.data@ == data@,
            r.wf(),
    {
        Mail { uid, data }
    }

    /// Find the first empty-line separator.
    fn find_sep(&self) -> (i: usize)
        requires
            self.wf(),
        ensures
            is_first_sep(self.data@, i as int),
    {
        proof {
            let w = choose|w: int| sep_at(self.data@, w);
            lemma_first_sep_exists(self.data@, w);
        }
        proof {
            reveal_strlit("\r\n\r\n");
            assert(vstd::string::is_ascii("\r\n\r\n"));
            crate::wire::lemma_ascii_bytes("\r\n\r\n");
            assert(bytes_of("\r\n\r\n").len() == 4);
        }
        let pat = crate::wire::lit("\r\n\r\n");
        let n: usize = self.data.len();
        let mut i: usize = 0;
        while i + 4 <= n
            invariant
                n == self.data@.len(),
                i <= n,
                exists|k: int| is_first_sep(self.data@, k),
                forall|j: int| 0 <= j < i ==> !sep_at(self.data@, j),
                pat@ == bytes_of("\r\n\r\n"),
                pat@.len() == 4,
            decreases n - i,
        {
            if crate::wire::match_at(self.data.as_slice(), pat.as_slice(), i) {
                return i;
            }
            i = i + 1;
        }
        proof {
            // The loop cannot exit: the separator whose existence the
            // invariant carries would have been found.
            let k = choose|k: int| is_first_sep(self.data@, k);
            assert(sep_at(self.data@, k));
            assert(false);
        }
        0
    }

    /// The header: everything up to and including the first empty line.
    pub fn header(&self) -> (r: Vec<u8>)
        requires
            self.wf(),
        ensures
            r@ == header_of(self.data@),
    {
        let i = self.find_sep();
        proof {
            lemma_first_sep_unique(self.data@, i as int, sep_index(self.data@));
            reveal_strlit("\r\n\r\n");
            assert(vstd::string::is_ascii("\r\n\r\n"));
            crate::wire::lemma_ascii_bytes("\r\n\r\n");
            assert(bytes_of("\r\n\r\n").len() == 4);
        }
        let n: usize = self.data.len();
        assert(i + 4 <= n);
        let head = vstd::slice::slice_subrange(self.data.as_slice(), 0, i + 4);
        let mut r: Vec<u8> = Vec::new();
        append_bytes(&mut r, head);
        r
    }

    /// The body: everything after the first empty line.
    pub fn body(&self) -> (r: Vec<u8>)
        requires
            self.wf(),
        ensures
            r@ == body_of(self.data@),
    {
        let i = self.find_sep();
        proof {
            lemma_first_sep_unique(self.data@, i as int, sep_index(self.data@));
            reveal_strlit("\r\n\r\n");
            assert(vstd::string::is_ascii("\r\n\r\n"));
            crate::wire::lemma_ascii_bytes("\r\n\r\n");
            assert(bytes_of("\r\n\r\n").len() == 4);
        }
        let n: usize = self.data.len();
        assert(i + 4 <= n);
        let tail = vstd::slice::slice_subrange(self.data.as_slice(), i + 4, self.data.len());
        let mut r: Vec<u8> = Vec::new();
        append_bytes(&mut r, tail);
        r
    }
}

/// One mailbox folder.
#[derive(Debug, Clone)]
pub struct Folder {
    pub flags: Vec<Vec<u8>>,
    pub sep: Vec<u8>,
    pub name: Vec<u8>,
    pub uidvalidity: u32,
    pub mails: Vec<Mail>,
    pub uidnext: u32,
}

impl Folder {
    /// All stored mails are well formed.
    pub open spec fn wf(&self) -> bool {
        self.mails@.len() <= u32::MAX && forall|i: int|
            0 <= i < self.mails@.len() ==> (#[trigger] self.mails@[i]).wf()
    }

    /// An empty folder.
    pub fn new(
        flags: Vec<Vec<u8>>,
        sep: Vec<u8>,
        name: Vec<u8>,
        uidvalidity: u32,
        uidnext: u32,
    ) -> (r: Folder)
        ensures
            r.flags@ == flags@,
            r.sep@ == sep@,
            r.name@ == name@,
            r.uidvalidity == uidvalidity,
            r.uidnext == uidnext,
            r.mails@.len() == 0,
            r.wf(),
    {
        Folder { flags, sep, name, uidvalidity, mails: Vec::new(), uidnext }
    }

    /// Append a mail.
    pub fn push_mail(&mut self, mail: Mail)
        requires
            mail.wf(),
        ensures
            final(self).mails@ == old(self).mails@.push(mail),
            final(self).flags@ == old(self).flags@,
            final(self).sep@ == old(self).sep@,
            final(self).name@ == old(self).name@,
            final(self).uidvalidity == old(self).uidvalidity,
            final(self).uidnext == old(self).uidnext,
            old(self).wf() && old(self).mails@.len() < u32::MAX ==> final(self).wf(),
    {
        self.mails.push(mail);
    }
}

/// The per-session account: an ordered list of folders.
#[derive(Debug, Clone)]
pub struct Account {
    pub folders: Vec<Folder>,
}

impl Account {
    /// All folders are well formed.
    pub open spec fn wf(&self) -> bool {
        forall|i: int| 0 <= i < self.folders@.len() ==> (#[trigger] self.folders@[i]).wf()
    }

    /// An account with no folders.
    pub fn new() -> (r: Account)
        ensures
            r.folders@.len() == 0,
            r.wf(),
    {
        Account { folders: Vec::new() }
    }

    /// Index of the first folder with exactly this name, if any.
    pub fn get_folder_by_name(&self, name: &[u8]) -> (r: Option<usize>)
        ensures
            match r {
                Some(i) => i < self.folders@.len() && self.folders@[i as int].name@ == name@
                    && forall|j: int| 0 <= j < i ==> self.folders@[j].name@ != name@,
                None => forall|j: int|
                    0 <= j < self.folders@.len() ==> self.folders@[j].name@ != name@,
            },
    {
        let mut i: usize = 0;
        while i < self.folders.len()
            invariant
                i <= self.folders@.len(),
                forall|j: int| 0 <= j < i ==> self.folders@[j].name@ != name@,
            decreases self.folders@.len() - i,
        {
            if crate::wire::bytes_eq(self.folders[i].name.as_slice(), name) {
                return Some(i);
            }
            i = i + 1;
        }
        None
    }
}

} // verus!
