//! IMAP request data and response synthesis: mailbox encoding, the
//! SELECT/LIST/STATUS/SEARCH data items, and FETCH item rendering.

use vstd::prelude::*;

use crate::account::{body_of, header_of, Folder, Mail};
use crate::wire::{bytes_of, dec_digits, eq_ci, line_count, lit};

verus! {

/// A mailbox name: `INBOX` is special-cased case-insensitively.
#[derive(Debug, Clone, PartialEq, Eq)]
pub enum Mailbox {
    Inbox,
    Other(Vec<u8>),
}

impl Mailbox {
    /// The plain name string of the mailbox.
    pub open spec fn name_spec(&self) -> Seq<u8> {
        match self {
            Mailbox::Inbox => bytes_of("INBOX"),
            Mailbox::Other(n) => n@,
        }
    }

    /// Render the plain name string.
    pub fn name_bytes(&self) -> (r: Vec<u8>)
        ensures
            r@ == self.name_spec(),
    {
        match self {
            Mailbox::Inbox => lit("INBOX"),
            Mailbox::Other(n) => {
                let mut r: Vec<u8> = Vec::new();
                crate::wire::append_bytes(&mut r, n.as_slice());
                r
            }
        }
    }
}

/// An IMAP atom byte: printable ASCII except the atom-special bytes.
pub open spec fn is_atom_byte(b: u8) -> bool {
    33 <= b && b <= 126 && b != 40 && b != 41 && b != 123 && b != 37 && b != 42 && b != 34 && b
        != 92 && b != 93
}

/// An IMAP text byte: anything but NUL, CR, LF, and bytes above ASCII.
pub open spec fn is_text_byte(b: u8) -> bool {
    (1 <= b && b <= 9) || b == 11 || b == 12 || (14 <= b && b <= 127)
}

/// All bytes are atom bytes.
pub open spec fn all_atom(s: Seq<u8>) -> bool {
    forall|i: int| 0 <= i < s.len() ==> is_atom_byte(#[trigger] s[i])
}

/// All bytes are text bytes.
pub open spec fn all_text(s: Seq<u8>) -> bool {
    forall|i: int| 0 <= i < s.len() ==> is_text_byte(#[trigger] s[i])
}

/// Backslash-escaping of quote and backslash, as quoted strings need.
pub open spec fn quoted_escape(s: Seq<u8>) -> Seq<u8>
    decreases s.len(),
{
    if s.len() == 0 {
        Seq::<u8>::empty()
    } else {
        (if s[0] == 34 || s[0] == 92 {
            seq![92u8, s[0]]
        } else {
            seq![s[0]]
        }) + quoted_escape(s.drop_first())
    }
}

/// The wire form of an astring: a bare atom where possible, else a
/// quoted string, else a literal.
pub open spec fn astring_wire(name: Seq<u8>) -> Seq<u8> {
    if name.len() > 0 && all_atom(name) {
        name
    } else if all_text(name) {
        bytes_of("\"") + quoted_escape(name) + bytes_of("\"")
    } else {
        bytes_of("{") + dec_digits(name.len()) + bytes_of("}\r\n") + name
    }
}

/// The wire form of a mailbox name: `INBOX` for the inbox (compared
/// case-insensitively), otherwise the astring form.
pub open spec fn mailbox_name_wire(name: Seq<u8>) -> Seq<u8> {
    if eq_ci(name, bytes_of("INBOX")) {
        bytes_of("INBOX")
    } else {
        astring_wire(name)
    }
}

fn is_atom_byte_exec(b: u8) -> (r: bool)
    ensures
        r == is_atom_byte(b),
{
    33 <= b && b <= 126 && b != 40 && b != 41 && b != 123 && b != 37 && b != 42 && b != 34 && b
        != 92 && b != 93
}

fn is_text_byte_exec(b: u8) -> (r: bool)
    ensures
        r == is_text_byte(b),
{
    (1 <= b && b <= 9) || b == 11 || b == 12 || (14 <= b && b <= 127)
}

fn all_atom_exec(s: &[u8]) -> (r: bool)
    ensures
        r == all_atom(s@),
{
    let mut i: usize = 0;
    while i < s.len()
        invariant
            i <= s@.len(),
            forall|j: int| 0 <= j < i ==> is_atom_byte(#[trigger] s@[j]),
        decreases s@.len() - i,
    {
        if !is_atom_byte_exec(s[i]) {
            return false;
        }
        i = i + 1;
    }
    true
}

fn all_text_exec(s: &[u8]) -> (r: bool)
    ensures
        r == all_text(s@),
{
    let mut i: usize = 0;
    while i < s.len()
        invariant
            i <= s@.len(),
            forall|j: int| 0 <= j < i ==> is_text_byte(#[trigger] s@[j]),
        decreases s@.len() - i,
    {
        if !is_text_byte_exec(s[i]) {
            return false;
        }
        i = i + 1;
    }
    true
}

fn quoted_escape_exec(s: &[u8]) -> (r: Vec<u8>)
    ensures
        r@ == quoted_escape(s@),
    decreases s@.len(),
{
    if s.len() == 0 {
        return Vec::new();
    }
    let mut r: Vec<u8> = Vec::new();
    if s[0] == 34 || s[0] == 92 {
        r.push(92);
        r.push(s[0]);
    } else {
        r.push(s[0]);
    }
    let rest = vstd::slice::slice_subrange(s, 1, s.len());
    proof {
        assert(rest@ == s@.drop_first());
        assert(r@ =~= (if s@[0] == 34 || s@[0] == 92 {
            seq![92u8, s@[0]]
        } else {
            seq![s@[0]]
        }));
    }
    let tail = quoted_escape_exec(rest);
    crate::wire::append_bytes(&mut r, tail.as_slice());
    r
}

/// Render an astring.
pub fn render_astring(name: &[u8]) -> (r: Vec<u8>)
    ensures
        r@ == astring_wire(name@),
{
    if s_len_positive(name) && all_atom_exec(name) {
        let mut r: Vec<u8> = Vec::new();
        crate::wire::append_bytes(&mut r, name);
        r
    } else if all_text_exec(name) {
        let mut r = lit("\"");
        let esc = quoted_escape_exec(name);
        crate::wire::append_bytes(&mut r, esc.as_slice());
        crate::wire::append_lit(&mut r, "\"");
        r
    } else {
        let mut r = lit("{");
        let n = crate::wire::fmt_u64(name.len() as u64);
        crate::wire::append_bytes(&mut r, n.as_slice());
        crate::wire::append_lit(&mut r, "}\r\n");
        crate::wire::append_bytes(&mut r, name);
        r
    }
}

fn s_len_positive(s: &[u8]) -> (r: bool)
    ensures
        r == (s@.len() > 0),
{
    s.len() > 0
}

/// Render a mailbox name for a response.
pub fn render_mailbox_name(name: &[u8]) -> (r: Vec<u8>)
    ensures
        r@ == mailbox_name_wire(name@),
{
    let inbox = lit("INBOX");
    if crate::wire::bytes_eq_ci(name, inbox.as_slice()) {
        inbox
    } else {
        render_astring(name)
    }
}

/// One `* LIST () "/" <mailbox>` line.
pub open spec fn list_line(name: Seq<u8>) -> Seq<u8> {
    bytes_of("* LIST () \"/\" ") + mailbox_name_wire(name) + bytes_of("\r\n")
}

/// The hierarchy-request line: an empty mailbox argument asks for the
/// delimiter and root only.
pub open spec fn list_hierarchy_line() -> Seq<u8> {
    bytes_of("* LIST () \"/\" \"\"\r\n")
}

/// One list line per configured folder.
pub open spec fn list_all_lines(folders: Seq<Vec<u8>>) -> Seq<u8>
    decreases folders.len(),
{
    if folders.len() == 0 {
        Seq::<u8>::empty()
    } else {
        list_line(folders[0]@) + list_all_lines(folders.drop_first())
    }
}

/// The canonical name of a LIST/LSUB request: reference concatenated
/// with the mailbox argument.
pub open spec fn canonical_of(reference: &Mailbox, wildcard: Seq<u8>) -> Seq<u8> {
    reference.name_spec() + wildcard
}

/// The untagged data of a LIST or LSUB request, per the canonical-form
/// rules: an empty mailbox argument is a hierarchy request; `*` and `%`
/// list every configured folder; a configured name lists itself; the
/// inbox matches case-insensitively; anything else lists nothing.
pub open spec fn list_data_wire(folders: Seq<Vec<u8>>, reference: &Mailbox, wildcard: Seq<u8>)
    -> Seq<u8> {
    if wildcard.len() == 0 {
        list_hierarchy_line()
    } else {
        let canon = canonical_of(reference, wildcard);
        if canon == bytes_of("*") || canon == bytes_of("%") {
            list_all_lines(folders)
        } else if exists|i: int| 0 <= i < folders.len() && folders[i]@ == canon {
            list_line(canon)
        } else if eq_ci(canon, bytes_of("INBOX")) {
            bytes_of("* LIST () \"/\" INBOX\r\n")
        } else {
            Seq::<u8>::empty()
        }
    }
}

fn render_list_line(name: &[u8]) -> (r: Vec<u8>)
    ensures
        r@ == list_line(name@),
{
    let mut r = lit("* LIST () \"/\" ");
    let mb = render_mailbox_name(name);
    crate::wire::append_bytes(&mut r, mb.as_slice());
    crate::wire::append_lit(&mut r, "\r\n");
    r
}

/// Render the LIST/LSUB data for a request.
pub fn render_list_data(folders: &Vec<Vec<u8>>, reference: &Mailbox, wildcard: &[u8]) -> (r: Vec<
    u8,
>)
    ensures
        r@ == list_data_wire(folders@, reference, wildcard@),
{
    if wildcard.len() == 0 {
        return lit("* LIST () \"/\" \"\"\r\n");
    }
    let mut canon = reference.name_bytes();
    crate::wire::append_bytes(&mut canon, wildcard);
    let star = lit("*");
    let percent = lit("%");
    if crate::wire::bytes_eq(canon.as_slice(), star.as_slice()) || crate::wire::bytes_eq(
        canon.as_slice(),
        percent.as_slice(),
    ) {
        let mut r: Vec<u8> = Vec::new();
        let mut i: usize = 0;
        proof {
            assert(folders@.skip(0) =~= folders@);
        }
        while i < folders.len()
            invariant
                i <= folders@.len(),
                list_all_lines(folders@) == r@ + list_all_lines(folders@.skip(i as int)),
            decreases folders@.len() - i,
        {
            let ghost r0 = r@;
            let line = render_list_line(folders[i].as_slice());
            crate::wire::append_bytes(&mut r, line.as_slice());
            proof {
                let rest = folders@.skip(i as int);
                assert(rest[0] == folders@[i as int]);
                assert(rest.drop_first() =~= folders@.skip(i + 1));
                assert(r0 + list_all_lines(rest) =~= r@ + list_all_lines(folders@.skip(i + 1)));
            }
            i = i + 1;
        }
        proof {
            assert(list_all_lines(folders@.skip(folders@.len() as int)) == Seq::<u8>::empty());
            assert(r@ + Seq::<u8>::empty() =~= r@);
        }
        r
    } else {
        let mut found: bool = false;
        let mut i: usize = 0;
        while i < folders.len()
            invariant
                i <= folders@.len(),
                found == exists|j: int| 0 <= j < i && folders@[j]@ == canon@,
            decreases folders@.len() - i,
        {
            if crate::wire::bytes_eq(folders[i].as_slice(), canon.as_slice()) {
                found = true;
                proof {
                    assert(0 <= i < folders@.len() && folders@[i as int]@ == canon@);
                }
                i = folders.len();
            } else {
                i = i + 1;
            }
        }
        if found {
            render_list_line(canon.as_slice())
        } else {
            let inbox = lit("INBOX");
            if crate::wire::bytes_eq_ci(canon.as_slice(), inbox.as_slice()) {
                lit("* LIST () \"/\" INBOX\r\n")
            } else {
                Vec::new()
            }
        }
    }
}

/// A STATUS request data item.
#[derive(Debug, Clone, Copy, PartialEq, Eq, Structural)]
pub enum StatusItem {
    Messages,
    Recent,
    UidNext,
    UidValidity,
    Unseen,
}

/// The counts reported by a STATUS response.
pub struct StatusCounts {
    pub messages: u32,
    pub recent: u32,
    pub uidnext: u32,
    pub uidvalidity: u32,
    pub unseen: u32,
}

/// One rendered STATUS attribute.
pub open spec fn status_item_wire(it: StatusItem, c: StatusCounts) -> Seq<u8> {
    match it {
        StatusItem::Messages => bytes_of("MESSAGES ") + dec_digits(c.messages as nat),
        StatusItem::Recent => bytes_of("RECENT ") + dec_digits(c.recent as nat),
        StatusItem::UidNext => bytes_of("UIDNEXT ") + dec_digits(c.uidnext as nat),
        StatusItem::UidValidity => bytes_of("UIDVALIDITY ") + dec_digits(c.uidvalidity as nat),
        StatusItem::Unseen => bytes_of("UNSEEN ") + dec_digits(c.unseen as nat),
    }
}

/// The rendered STATUS attributes, space-separated.
pub open spec fn status_items_wire(items: Seq<StatusItem>, c: StatusCounts) -> Seq<u8>
    decreases items.len(),
{
    if items.len() == 0 {
        Seq::<u8>::empty()
    } else if items.len() == 1 {
        status_item_wire(items[0], c)
    } else {
        status_item_wire(items[0], c) + bytes_of(" ") + status_items_wire(items.drop_first(), c)
    }
}

/// A whole `* STATUS` response line.
pub open spec fn status_data_wire(mailbox: Seq<u8>, items: Seq<StatusItem>, c: StatusCounts)
    -> Seq<u8> {
    bytes_of("* STATUS ") + mailbox_name_wire(mailbox) + bytes_of(" (") + status_items_wire(
        items,
        c,
    ) + bytes_of(")\r\n")
}

fn render_status_item(it: StatusItem, c: &StatusCounts) -> (r: Vec<u8>)
    ensures
        r@ == status_item_wire(it, *c),
{
    match it {
        StatusItem::Messages => {
            let mut r = lit("MESSAGES ");
            let n = crate::wire::fmt_u32(c.messages);
            crate::wire::append_bytes(&mut r, n.as_slice());
            r
        }
        StatusItem::Recent => {
            let mut r = lit("RECENT ");
            let n = crate::wire::fmt_u32(c.recent);
            crate::wire::append_bytes(&mut r, n.as_slice());
            r
        }
        StatusItem::UidNext => {
            let mut r = lit("UIDNEXT ");
            let n = crate::wire::fmt_u32(c.uidnext);
            crate::wire::append_bytes(&mut r, n.as_slice());
            r
        }
        StatusItem::UidValidity => {
            let mut r = lit("UIDVALIDITY ");
            let n = crate::wire::fmt_u32(c.uidvalidity);
            crate::wire::append_bytes(&mut r, n.as_slice());
            r
        }
        StatusItem::Unseen => {
            let mut r = lit("UNSEEN ");
            let n = crate::wire::fmt_u32(c.unseen);
            crate::wire::append_bytes(&mut r, n.as_slice());
            r
        }
    }
}

/// Render a `* STATUS` response line.
pub fn render_status_data(mailbox: &[u8], items: &Vec<StatusItem>, c: &StatusCounts) -> (r: Vec<
    u8,
>)
    ensures
        r@ == status_data_wire(mailbox@, items@, *c),
{
    let mut r = lit("* STATUS ");
    let mb = render_mailbox_name(mailbox);
    crate::wire::append_bytes(&mut r, mb.as_slice());
    crate::wire::append_lit(&mut r, " (");
    if items.len() > 0 {
        let first = render_status_item(items[0], c);
        crate::wire::append_bytes(&mut r, first.as_slice());
        let mut i: usize = 1;
        proof {
            assert(items@.skip(0) =~= items@);
        }
        while i < items.len()
            invariant
                1 <= i <= items@.len(),
                items@.len() >= 1,
                r@ == bytes_of("* STATUS ") + mailbox_name_wire(mailbox@) + bytes_of(" (")
                    + status_items_prefix(items@, i as int, *c),
            decreases items@.len() - i,
        {
            crate::wire::append_lit(&mut r, " ");
            let it = render_status_item(items[i], c);
            crate::wire::append_bytes(&mut r, it.as_slice());
            proof {
                lemma_status_items_snoc(items@, i + 1, *c);
            }
            i = i + 1;
        }
        proof {
            assert(status_items_prefix(items@, items@.len() as int, *c) == status_items_wire(
                items@,
                *c,
            )) by {
                assert(items@.subrange(0, items@.len() as int) =~= items@);
            }
        }
    }
    crate::wire::append_lit(&mut r, ")\r\n");
    r
}

/// The rendered first `k` STATUS attributes.
pub open spec fn status_items_prefix(items: Seq<StatusItem>, k: int, c: StatusCounts) -> Seq<u8> {
    status_items_wire(items.subrange(0, k), c)
}

/// Unfolding of [`status_items_wire`] at the last element.
proof fn lemma_status_items_snoc(items: Seq<StatusItem>, k: int, c: StatusCounts)
    requires
        2 <= k <= items.len(),
    ensures
        status_items_prefix(items, k, c) == status_items_prefix(items, k - 1, c) + bytes_of(" ")
            + status_item_wire(items[k - 1], c),
    decreases k,
{
    let pre = items.subrange(0, k);
    if k == 2 {
        assert(pre.len() == 2);
        assert(status_items_wire(pre.drop_first(), c) == status_item_wire(pre[1], c));
        assert(status_items_wire(pre, c) == status_item_wire(pre[0], c) + bytes_of(" ")
            + status_item_wire(pre[1], c));
        assert(items.subrange(0, 1) =~= seq![items[0]]);
        assert(status_items_prefix(items, 1, c) == status_item_wire(items[0], c));
    } else {
        lemma_status_items_snoc(items.drop_first(), k - 1, c);
        assert(items.drop_first().subrange(0, k - 1) =~= pre.drop_first());
        assert(items.drop_first().subrange(0, k - 2) =~= items.subrange(0, k - 1).drop_first());
        assert(status_items_wire(pre, c) == status_item_wire(pre[0], c) + bytes_of(" ")
            + status_items_wire(pre.drop_first(), c));
        assert(status_items_wire(items.subrange(0, k - 1), c) == status_item_wire(items[0], c)
            + bytes_of(" ") + status_items_wire(items.subrange(0, k - 1).drop_first(), c));
        assert(status_item_wire(pre[0], c) + bytes_of(" ") + (status_items_wire(
            items.drop_first().subrange(0, k - 2),
            c,
        ) + bytes_of(" ") + status_item_wire(items.drop_first()[k - 2], c)) =~= (status_item_wire(
            items[0],
            c,
        ) + bytes_of(" ") + status_items_wire(items.subrange(0, k - 1).drop_first(), c)) + bytes_of(
            " ",
        ) + status_item_wire(items[k - 1], c));
    }
}

/// The SELECT/EXAMINE untagged data for a folder: flags, counts, and
/// the four OK-coded lines.
pub open spec fn select_data_wire(folder: &Folder) -> Seq<u8> {
    bytes_of("* FLAGS (\\Answered \\Flagged \\Deleted \\Seen \\Draft)\r\n") + bytes_of("* ")
        + dec_digits(folder.mails@.len() as nat) + bytes_of(" EXISTS\r\n") + bytes_of("* ")
        + dec_digits(folder.mails@.len() as nat) + bytes_of(" RECENT\r\n") + bytes_of(
        "* OK [UNSEEN 1] first message without the \\Seen flag set.\r\n",
    ) + bytes_of(
        "* OK [PERMANENTFLAGS (\\Answered \\Flagged \\Deleted \\Seen \\Draft)] flags the client can change permanently.\r\n",
    ) + bytes_of("* OK [UIDNEXT ") + dec_digits(folder.uidnext as nat) + bytes_of(
        "] the next unique identifier value.\r\n",
    ) + bytes_of("* OK [UIDVALIDITY ") + dec_digits(folder.uidvalidity as nat) + bytes_of(
        "] the unique identifier validity value.\r\n",
    )
}

/// A message number or `*` for the largest in the mailbox.
#[derive(Debug, Clone, Copy, PartialEq, Eq)]
pub enum SeqNum {
    Value(u32),
    Largest,
}

/// One element of a sequence set.
#[derive(Debug, Clone, Copy, PartialEq, Eq)]
pub enum SeqRange {
    Single(SeqNum),
    Span(SeqNum, SeqNum),
}

/// A section of a message body named by a FETCH item.
#[derive(Debug, Clone, PartialEq, Eq)]
pub enum SectionSpec {
    Header,
    HeaderFields(Vec<Vec<u8>>),
    Text,
    Unsupported,
}

/// One FETCH data item.
#[derive(Debug, Clone, PartialEq, Eq)]
pub enum FetchAttr {
    Uid,
    Flags,
    InternalDate,
    Rfc822Size,
    Rfc822Header,
    Envelope,
    BodyStructure,
    BodyExt { section: Option<SectionSpec>, partial: Option<(u32, u32)>, peek: bool },
    Body,
    Rfc822,
    Rfc822Text,
}

/// The FETCH item list: a macro or explicit items.
#[derive(Debug, Clone, PartialEq, Eq)]
pub enum FetchSpec {
    MacroAll,
    MacroFast,
    MacroFull,
    Items(Vec<FetchAttr>),
}

/// The engine synthesises this item; the others are left undefined.
pub open spec fn attr_supported(a: FetchAttr) -> bool {
    match a {
        FetchAttr::Body => false,
        FetchAttr::Rfc822 => false,
        FetchAttr::Rfc822Text => false,
        FetchAttr::BodyExt { section, partial, .. } => (match section {
            Some(SectionSpec::Unsupported) => false,
            _ => true,
        }) && (match partial {
            Some((first, _)) => first == 0,
            None => true,
        }),
        _ => true,
    }
}

/// Every item in the list is supported.
pub open spec fn attrs_supported(s: Seq<FetchAttr>) -> bool {
    forall|i: int| 0 <= i < s.len() ==> attr_supported(#[trigger] s[i])
}

/// The item list after macro expansion, with `UID` forced to the front
/// for UID FETCH.
pub open spec fn expanded_attrs(items: FetchSpec, uid: bool) -> Seq<FetchAttr> {
    let base = expanded_base(items);
    if uid && !base.contains(FetchAttr::Uid) {
        seq![FetchAttr::Uid] + base
    } else {
        base
    }
}

/// Expand the item list, consuming it.
pub fn expand_attrs(items: FetchSpec, uid: bool) -> (r: Vec<FetchAttr>)
    ensures
        r@ == expanded_attrs(items, uid),
{
    let mut base: Vec<FetchAttr> = match items {
        FetchSpec::MacroAll => {
            let mut v: Vec<FetchAttr> = Vec::new();
            v.push(FetchAttr::Flags);
            v.push(FetchAttr::InternalDate);
            v.push(FetchAttr::Rfc822Size);
            v.push(FetchAttr::Envelope);
            proof {
                assert(v@ =~= expanded_base(FetchSpec::MacroAll));
            }
            v
        }
        FetchSpec::MacroFast => {
            let mut v: Vec<FetchAttr> = Vec::new();
            v.push(FetchAttr::Flags);
            v.push(FetchAttr::InternalDate);
            v.push(FetchAttr::Rfc822Size);
            proof {
                assert(v@ =~= expanded_base(FetchSpec::MacroFast));
            }
            v
        }
        FetchSpec::MacroFull => {
            let mut v: Vec<FetchAttr> = Vec::new();
            v.push(FetchAttr::Flags);
            v.push(FetchAttr::InternalDate);
            v.push(FetchAttr::Rfc822Size);
            v.push(FetchAttr::Envelope);
            v.push(FetchAttr::Body);
            proof {
                assert(v@ =~= expanded_base(FetchSpec::MacroFull));
            }
            v
        }
        FetchSpec::Items(v) => v,
    };
    if uid {
        let mut has_uid: bool = false;
        let mut i: usize = 0;
        while i < base.len()
            invariant
                i <= base@.len(),
                has_uid == exists|j: int| 0 <= j < i && base@[j] == FetchAttr::Uid,
            decreases base@.len() - i,
        {
            let is_uid = match &base[i] {
                FetchAttr::Uid => true,
                _ => false,
            };
            if is_uid {
                has_uid = true;
                proof {
                    assert(0 <= i < base@.len() && base@[i as int] == FetchAttr::Uid);
                }
                i = base.len();
            } else {
                i = i + 1;
            }
        }
        proof {
            assert(has_uid == base@.contains(FetchAttr::Uid));
        }
        if !has_uid {
            let ghost b0 = base@;
            base.insert(0, FetchAttr::Uid);
            proof {
                assert(base@ =~= seq![FetchAttr::Uid] + b0);
            }
        }
    }
    base
}

/// The base expansion of the macro, before the UID adjustment.
pub open spec fn expanded_base(items: FetchSpec) -> Seq<FetchAttr> {
    match items {
        FetchSpec::MacroAll => seq![
            FetchAttr::Flags,
            FetchAttr::InternalDate,
            FetchAttr::Rfc822Size,
            FetchAttr::Envelope,
        ],
        FetchSpec::MacroFast => seq![FetchAttr::Flags, FetchAttr::InternalDate, FetchAttr::Rfc822Size],
        FetchSpec::MacroFull => seq![
            FetchAttr::Flags,
            FetchAttr::InternalDate,
            FetchAttr::Rfc822Size,
            FetchAttr::Envelope,
            FetchAttr::Body,
        ],
        FetchSpec::Items(v) => v@,
    }
}

/// Render the SELECT/EXAMINE untagged data.
pub fn render_select_data(folder: &Folder) -> (r: Vec<u8>)
    requires
        folder.mails@.len() <= u32::MAX,
    ensures
        r@ == select_data_wire(folder),
{
    let count: u32 = folder.mails.len() as u32;
    let count_digits = crate::wire::fmt_u32(count);
    let mut r = lit("* FLAGS (\\Answered \\Flagged \\Deleted \\Seen \\Draft)\r\n");
    crate::wire::append_lit(&mut r, "* ");
    crate::wire::append_bytes(&mut r, count_digits.as_slice());
    crate::wire::append_lit(&mut r, " EXISTS\r\n");
    crate::wire::append_lit(&mut r, "* ");
    crate::wire::append_bytes(&mut r, count_digits.as_slice());
    crate::wire::append_lit(&mut r, " RECENT\r\n");
    crate::wire::append_lit(&mut r, "* OK [UNSEEN 1] first message without the \\Seen flag set.\r\n");
    crate::wire::append_lit(
        &mut r,
        "* OK [PERMANENTFLAGS (\\Answered \\Flagged \\Deleted \\Seen \\Draft)] flags the client can change permanently.\r\n",
    );
    crate::wire::append_lit(&mut r, "* OK [UIDNEXT ");
    let un = crate::wire::fmt_u32(folder.uidnext);
    crate::wire::append_bytes(&mut r, un.as_slice());
    crate::wire::append_lit(&mut r, "] the next unique identifier value.\r\n");
    crate::wire::append_lit(&mut r, "* OK [UIDVALIDITY ");
    let uv = crate::wire::fmt_u32(folder.uidvalidity);
    crate::wire::append_bytes(&mut r, uv.as_slice());
    crate::wire::append_lit(&mut r, "] the unique identifier validity value.\r\n");
    r
}

/// The smaller of body length and the requested partial maximum.
pub open spec fn partial_len(body_len: int, maximum: u32) -> int {
    if body_len < maximum {
        body_len
    } else {
        maximum as int
    }
}

/// One rendered FETCH item for a mail.  Meaningful for supported items
/// on well-formed mails only.
pub open spec fn attr_wire(a: FetchAttr, m: &Mail) -> Seq<u8> {
    let hdr = header_of(m.data@);
    let body = body_of(m.data@);
    match a {
        FetchAttr::Uid => bytes_of("UID ") + dec_digits(m.uid as nat),
        FetchAttr::Flags => bytes_of("FLAGS (\\Recent)"),
        FetchAttr::InternalDate => bytes_of("INTERNALDATE \"01-Oct-2019 12:34:56 +0000\""),
        FetchAttr::Rfc822Size => bytes_of("RFC822.SIZE ") + dec_digits(body.len()),
        FetchAttr::Rfc822Header => bytes_of("RFC822.HEADER {") + dec_digits(hdr.len()) + bytes_of(
            "}\r\n",
        ) + hdr,
        FetchAttr::Envelope => bytes_of("ENVELOPE \"\""),
        FetchAttr::BodyStructure => bytes_of(
            "BODYSTRUCTURE (\"TEXT\" \"PLAIN\" (\"CHARSET\" \"US-ASCII\") NIL NIL \"7BIT\" ",
        ) + dec_digits(body.len()) + bytes_of(" ") + dec_digits(line_count(body)) + bytes_of(")"),
        FetchAttr::BodyExt { section, partial, .. } => match section {
            Some(sec) => match partial {
                Some((_, maximum)) => {
                    let ret = partial_len(body.len() as int, maximum);
                    bytes_of("BODY[1]<") + dec_digits(ret as nat) + bytes_of("> {") + dec_digits(
                        ret as nat,
                    ) + bytes_of("}\r\n") + body.take(ret)
                },
                None => match sec {
                    SectionSpec::Header => bytes_of("BODY[HEADER] {") + dec_digits(hdr.len())
                        + bytes_of("}\r\n") + hdr,
                    SectionSpec::HeaderFields(fields) => bytes_of("BODY[HEADER.FIELDS (")
                        + fields_wire(fields@) + bytes_of(")] {") + dec_digits(hdr.len())
                        + bytes_of("}\r\n") + hdr,
                    SectionSpec::Text => bytes_of("BODY[TEXT] {") + dec_digits(body.len())
                        + bytes_of("}\r\n") + body,
                    SectionSpec::Unsupported => Seq::<u8>::empty(),
                },
            },
            None => match partial {
                Some((_, maximum)) => {
                    let ret = partial_len(body.len() as int, maximum);
                    bytes_of("BODY[]<") + dec_digits(ret as nat) + bytes_of("> {") + dec_digits(
                        ret as nat,
                    ) + bytes_of("}\r\n") + body.take(ret)
                },
                None => bytes_of("BODY[] {") + dec_digits(body.len()) + bytes_of("}\r\n") + body,
            },
        },
        _ => Seq::<u8>::empty(),
    }
}

/// Header-field names rendered as astrings, space-separated.
pub open spec fn fields_wire(fields: Seq<Vec<u8>>) -> Seq<u8>
    decreases fields.len(),
{
    if fields.len() == 0 {
        Seq::<u8>::empty()
    } else if fields.len() == 1 {
        astring_wire(fields[0]@)
    } else {
        astring_wire(fields[0]@) + bytes_of(" ") + fields_wire(fields.drop_first())
    }
}

/// The rendered item list of one FETCH response, space-separated.
pub open spec fn attrs_wire(attrs: Seq<FetchAttr>, m: &Mail) -> Seq<u8> {
    if attrs.len() == 0 {
        Seq::<u8>::empty()
    } else {
        attr_wire(attrs[0], m) + sep_attrs(attrs.drop_first(), m)
    }
}

/// The tail of the item list: each item preceded by a space.
pub open spec fn sep_attrs(attrs: Seq<FetchAttr>, m: &Mail) -> Seq<u8>
    decreases attrs.len(),
{
    if attrs.len() == 0 {
        Seq::<u8>::empty()
    } else {
        bytes_of(" ") + attr_wire(attrs[0], m) + sep_attrs(attrs.drop_first(), m)
    }
}

/// Render one FETCH item.
fn render_attr(a: &FetchAttr, m: &Mail) -> (r: Vec<u8>)
    requires
        m.wf(),
        m.data@.len() <= u32::MAX,
        attr_supported(*a),
    ensures
        r@ == attr_wire(*a, m),
{
    match a {
        FetchAttr::Uid => {
            let mut r = lit("UID ");
            let n = crate::wire::fmt_u32(m.uid);
            crate::wire::append_bytes(&mut r, n.as_slice());
            r
        }
        FetchAttr::Flags => lit("FLAGS (\\Recent)"),
        FetchAttr::InternalDate => lit("INTERNALDATE \"01-Oct-2019 12:34:56 +0000\""),
        FetchAttr::Rfc822Size => {
            let body = m.body();
            let mut r = lit("RFC822.SIZE ");
            let n = crate::wire::fmt_u64(body.len() as u64);
            crate::wire::append_bytes(&mut r, n.as_slice());
            r
        }
        FetchAttr::Rfc822Header => {
            let hdr = m.header();
            let mut r = lit("RFC822.HEADER {");
            let n = crate::wire::fmt_u64(hdr.len() as u64);
            crate::wire::append_bytes(&mut r, n.as_slice());
            crate::wire::append_lit(&mut r, "}\r\n");
            crate::wire::append_bytes(&mut r, hdr.as_slice());
            r
        }
        FetchAttr::Envelope => lit("ENVELOPE \"\""),
        FetchAttr::BodyStructure => {
            let body = m.body();
            let mut r = lit(
                "BODYSTRUCTURE (\"TEXT\" \"PLAIN\" (\"CHARSET\" \"US-ASCII\") NIL NIL \"7BIT\" ",
            );
            let n = crate::wire::fmt_u64(body.len() as u64);
            crate::wire::append_bytes(&mut r, n.as_slice());
            crate::wire::append_lit(&mut r, " ");
            let lc = crate::wire::count_lines(body.as_slice());
            let lcd = crate::wire::fmt_u64(lc as u64);
            crate::wire::append_bytes(&mut r, lcd.as_slice());
            crate::wire::append_lit(&mut r, ")");
            r
        }
        FetchAttr::BodyExt { section, partial, .. } => {
            let body = m.body();
            match partial {
                Some((_, maximum)) => {
                    let blen: usize = body.len();
                    let ret: usize = if blen < *maximum as usize {
                        blen
                    } else {
                        *maximum as usize
                    };
                    let mut r = if section.is_some() {
                        lit("BODY[1]<")
                    } else {
                        lit("BODY[]<")
                    };
                    let n = crate::wire::fmt_u64(ret as u64);
                    crate::wire::append_bytes(&mut r, n.as_slice());
                    crate::wire::append_lit(&mut r, "> {");
                    crate::wire::append_bytes(&mut r, n.as_slice());
                    crate::wire::append_lit(&mut r, "}\r\n");
                    let part = vstd::slice::slice_subrange(body.as_slice(), 0, ret);
                    crate::wire::append_bytes(&mut r, part);
                    proof {
                        assert(body@.subrange(0, ret as int) =~= body@.take(
                            partial_len(body@.len() as int, *maximum),
                        ));
                    }
                    r
                }
                None => match section {
                    Some(SectionSpec::Header) => {
                        let hdr = m.header();
                        let mut r = lit("BODY[HEADER] {");
                        let n = crate::wire::fmt_u64(hdr.len() as u64);
                        crate::wire::append_bytes(&mut r, n.as_slice());
                        crate::wire::append_lit(&mut r, "}\r\n");
                        crate::wire::append_bytes(&mut r, hdr.as_slice());
                        r
                    }
                    Some(SectionSpec::HeaderFields(fields)) => {
                        let hdr = m.header();
                        let mut r = lit("BODY[HEADER.FIELDS (");
                        let fw = render_fields(fields);
                        crate::wire::append_bytes(&mut r, fw.as_slice());
                        crate::wire::append_lit(&mut r, ")] {");
                        let n = crate::wire::fmt_u64(hdr.len() as u64);
                        crate::wire::append_bytes(&mut r, n.as_slice());
                        crate::wire::append_lit(&mut r, "}\r\n");
                        crate::wire::append_bytes(&mut r, hdr.as_slice());
                        r
                    }
                    Some(SectionSpec::Text) => {
                        let mut r = lit("BODY[TEXT] {");
                        let n = crate::wire::fmt_u64(body.len() as u64);
                        crate::wire::append_bytes(&mut r, n.as_slice());
                        crate::wire::append_lit(&mut r, "}\r\n");
                        crate::wire::append_bytes(&mut r, body.as_slice());
                        r
                    }
                    Some(SectionSpec::Unsupported) => Vec::new(),
                    None => {
                        let mut r = lit("BODY[] {");
                        let n = crate::wire::fmt_u64(body.len() as u64);
                        crate::wire::append_bytes(&mut r, n.as_slice());
                        crate::wire::append_lit(&mut r, "}\r\n");
                        crate::wire::append_bytes(&mut r, body.as_slice());
                        r
                    }
                },
            }
        }
        _ => Vec::new(),
    }
}

/// Render the header-field names.
fn render_fields(fields: &Vec<Vec<u8>>) -> (r: Vec<u8>)
    ensures
        r@ == fields_wire(fields@),
{
    let mut r: Vec<u8> = Vec::new();
    if fields.len() == 0 {
        return r;
    }
    let first = render_astring(fields[0].as_slice());
    crate::wire::append_bytes(&mut r, first.as_slice());
    let mut i: usize = 1;
    proof {
        lemma_fields_split(fields@, 1);
    }
    while i < fields.len()
        invariant
            1 <= i <= fields@.len(),
            fields_wire(fields@) == r@ + fields_sep(fields@.skip(i as int)),
        decreases fields@.len() - i,
    {
        let ghost r0 = r@;
        crate::wire::append_lit(&mut r, " ");
        let fx = render_astring(fields[i].as_slice());
        crate::wire::append_bytes(&mut r, fx.as_slice());
        proof {
            let rest = fields@.skip(i as int);
            assert(rest[0] == fields@[i as int]);
            assert(rest.drop_first() =~= fields@.skip(i + 1));
            assert(r0 + fields_sep(rest) =~= r@ + fields_sep(fields@.skip(i + 1)));
        }
        i = i + 1;
    }
    proof {
        assert(fields_sep(fields@.skip(fields@.len() as int)).len() == 0);
        assert(r@ + fields_sep(fields@.skip(fields@.len() as int)) =~= r@);
    }
    r
}

/// The tail of the field list: each name preceded by a space.
pub open spec fn fields_sep(fields: Seq<Vec<u8>>) -> Seq<u8>
    decreases fields.len(),
{
    if fields.len() == 0 {
        Seq::<u8>::empty()
    } else {
        bytes_of(" ") + astring_wire(fields[0]@) + fields_sep(fields.drop_first())
    }
}

/// `fields_wire` splits into its first name and the space-separated tail.
proof fn lemma_fields_split(fields: Seq<Vec<u8>>, k: int)
    requires
        k == 1,
        fields.len() >= 1,
    ensures
        fields_wire(fields) == astring_wire(fields[0]@) + fields_sep(fields.skip(1)),
    decreases fields.len(),
{
    if fields.len() == 1 {
        assert(fields.skip(1).len() == 0);
        assert(astring_wire(fields[0]@) + fields_sep(fields.skip(1)) =~= astring_wire(
            fields[0]@,
        ));
    } else {
        lemma_fields_split(fields.drop_first(), 1);
        assert(fields.drop_first().skip(1) =~= fields.skip(2));
        assert(fields.skip(1) =~= fields.drop_first());
        assert(fields.skip(1)[0] == fields[1]);
        assert(fields_sep(fields.skip(1)) == bytes_of(" ") + astring_wire(fields[1]@) + fields_sep(
            fields.skip(2),
        ));
        assert(fields_wire(fields) == astring_wire(fields[0]@) + bytes_of(" ") + fields_wire(
            fields.drop_first(),
        ));
        assert(fields_wire(fields.drop_first()) == astring_wire(fields.drop_first()[0]@)
            + fields_sep(fields.drop_first().skip(1)));
        assert(fields.drop_first()[0] == fields[1]);
        assert(astring_wire(fields[0]@) + bytes_of(" ") + (astring_wire(fields[1]@) + fields_sep(
            fields.skip(2),
        )) =~= astring_wire(fields[0]@) + (bytes_of(" ") + astring_wire(fields[1]@) + fields_sep(
            fields.skip(2),
        )));
    }
}

/// Render the item list of one FETCH response.
pub fn render_attrs(attrs: &Vec<FetchAttr>, m: &Mail) -> (r: Vec<u8>)
    requires
        m.wf(),
        m.data@.len() <= u32::MAX,
        attrs_supported(attrs@),
    ensures
        r@ == attrs_wire(attrs@, m),
{
    let mut r: Vec<u8> = Vec::new();
    if attrs.len() == 0 {
        return r;
    }
    let first = render_attr(&attrs[0], m);
    crate::wire::append_bytes(&mut r, first.as_slice());
    let mut i: usize = 1;
    proof {
        assert(attrs@.skip(1) =~= attrs@.drop_first());
    }
    while i < attrs.len()
        invariant
            1 <= i <= attrs@.len(),
            m.wf(),
            m.data@.len() <= u32::MAX,
            attrs_supported(attrs@),
            attrs_wire(attrs@, m) == r@ + sep_attrs(attrs@.skip(i as int), m),
        decreases attrs@.len() - i,
    {
        let ghost r0 = r@;
        crate::wire::append_lit(&mut r, " ");
        let ax = render_attr(&attrs[i], m);
        crate::wire::append_bytes(&mut r, ax.as_slice());
        proof {
            let rest = attrs@.skip(i as int);
            assert(rest[0] == attrs@[i as int]);
            assert(rest.drop_first() =~= attrs@.skip(i + 1));
            assert(r0 + sep_attrs(rest, m) =~= r@ + sep_attrs(attrs@.skip(i + 1), m));
        }
        i = i + 1;
    }
    proof {
        assert(sep_attrs(attrs@.skip(attrs@.len() as int), m).len() == 0);
        assert(r@ + sep_attrs(attrs@.skip(attrs@.len() as int), m) =~= r@);
    }
    r
}

/// The integers counted up from `from`, `cnt` of them.
pub open spec fn range_seq(from: int, cnt: nat) -> Seq<int>
    decreases cnt,
{
    if cnt == 0 {
        Seq::<int>::empty()
    } else {
        seq![from] + range_seq(from + 1, (cnt - 1) as nat)
    }
}

/// The value of a sequence-set number under the given largest value.
pub open spec fn seqnum_val(s: SeqNum, largest: int) -> int {
    match s {
        SeqNum::Value(v) => v as int,
        SeqNum::Largest => largest,
    }
}

/// The numbers one sequence-set element denotes, in iteration order.
pub open spec fn head_vals(rg: SeqRange, largest: int) -> Seq<int> {
    match rg {
        SeqRange::Single(s) => seq![seqnum_val(s, largest)],
        SeqRange::Span(a, b) => {
            let from = seqnum_val(a, largest);
            let to = seqnum_val(b, largest);
            if from <= to {
                range_seq(from, (to + 1 - from) as nat)
            } else {
                Seq::<int>::empty()
            }
        },
    }
}

/// The numbers a sequence set denotes, capped by the emission budget.
pub open spec fn expand_budget(set: Seq<SeqRange>, largest: int, budget: int) -> Seq<int>
    decreases set.len(),
{
    if set.len() == 0 || budget <= 0 {
        Seq::<int>::empty()
    } else {
        let h = head_vals(set[0], largest);
        let t = if h.len() <= budget {
            h
        } else {
            h.take(budget)
        };
        t + expand_budget(set.drop_first(), largest, budget - t.len())
    }
}

/// The first index holding this uid, or the mail count if there is none.
pub open spec fn uid_index(mails: Seq<Mail>, uid: int) -> int
    decreases mails.len(),
{
    if mails.len() == 0 {
        0
    } else if mails[0].uid == uid {
        0
    } else {
        1 + uid_index(mails.drop_first(), uid)
    }
}

/// One FETCH response line for sequence number `n` of a mail.
pub open spec fn fetch_line(n: int, m: &Mail, attrs: Seq<FetchAttr>) -> Seq<u8> {
    bytes_of("* ") + dec_digits(n as nat) + bytes_of(" FETCH (") + attrs_wire(attrs, m) + bytes_of(
        ")\r\n",
    )
}

/// The response for one emitted number: resolved over uids in UID mode,
/// over message indices otherwise; numbers matching no mail emit
/// nothing.
pub open spec fn fetch_line_for(num: int, folder: &Folder, attrs: Seq<FetchAttr>, uid_mode: bool)
    -> Seq<u8> {
    if uid_mode {
        let j = uid_index(folder.mails@, num);
        if j < folder.mails@.len() {
            fetch_line(j + 1, &folder.mails@[j], attrs)
        } else {
            Seq::<u8>::empty()
        }
    } else {
        if 1 <= num <= folder.mails@.len() {
            fetch_line(num, &folder.mails@[num - 1], attrs)
        } else {
            Seq::<u8>::empty()
        }
    }
}

/// The responses for a list of emitted numbers.
pub open spec fn fetch_lines(nums: Seq<int>, folder: &Folder, attrs: Seq<FetchAttr>, uid_mode: bool)
    -> Seq<u8>
    decreases nums.len(),
{
    if nums.len() == 0 {
        Seq::<u8>::empty()
    } else {
        fetch_line_for(nums[0], folder, attrs, uid_mode) + fetch_lines(
            nums.drop_first(),
            folder,
            attrs,
            uid_mode,
        )
    }
}

/// The largest uid among the mails.
pub open spec fn max_uid(mails: Seq<Mail>) -> int
    decreases mails.len(),
{
    if mails.len() == 0 {
        0
    } else if mails[0].uid >= max_uid(mails.drop_first()) {
        mails[0].uid as int
    } else {
        max_uid(mails.drop_first())
    }
}

/// The iteration bound: the largest uid in UID mode, the mail count
/// otherwise.
pub open spec fn fetch_largest(folder: &Folder, uid_mode: bool) -> int {
    if uid_mode {
        max_uid(folder.mails@)
    } else {
        folder.mails@.len() as int
    }
}

/// The whole untagged FETCH output: at most 500 numbers are emitted.
pub open spec fn fetch_wire(folder: &Folder, set: Seq<SeqRange>, attrs: Seq<FetchAttr>,
    uid_mode: bool) -> Seq<u8> {
    fetch_lines(
        expand_budget(set, fetch_largest(folder, uid_mode), 500),
        folder,
        attrs,
        uid_mode,
    )
}

/// Every explicit sequence number is positive.
pub open spec fn set_valid(set: Seq<SeqRange>) -> bool {
    forall|i: int|
        0 <= i < set.len() ==> match #[trigger] set[i] {
            SeqRange::Single(s) => seqnum_positive(s),
            SeqRange::Span(a, b) => seqnum_positive(a) && seqnum_positive(b),
        }
}

/// A sequence number names a positive value.
pub open spec fn seqnum_positive(s: SeqNum) -> bool {
    match s {
        SeqNum::Value(v) => v >= 1,
        SeqNum::Largest => true,
    }
}

/// Length and contents of a counted range.
proof fn lemma_range_props(from: int, cnt: nat)
    ensures
        range_seq(from, cnt).len() == cnt,
        forall|i: int| 0 <= i < cnt ==> range_seq(from, cnt)[i] == from + i,
    decreases cnt,
{
    if cnt > 0 {
        lemma_range_props(from + 1, (cnt - 1) as nat);
    }
}

/// Counting one step further appends the next integer.
proof fn lemma_range_snoc(from: int, cnt: nat)
    ensures
        range_seq(from, cnt + 1) == range_seq(from, cnt).push(from + cnt),
{
    lemma_range_props(from, cnt + 1);
    lemma_range_props(from, cnt);
    assert(range_seq(from, cnt + 1) =~= range_seq(from, cnt).push(from + cnt));
}

/// A prefix of a count is the smaller count.
proof fn lemma_range_take(from: int, cnt: nat, k: nat)
    requires
        k <= cnt,
    ensures
        range_seq(from, cnt).take(k as int) == range_seq(from, k),
{
    lemma_range_props(from, cnt);
    lemma_range_props(from, k);
    assert(range_seq(from, cnt).take(k as int) =~= range_seq(from, k));
}

/// Emitting one more number appends its response line.
proof fn lemma_fetch_snoc(
    nums: Seq<int>,
    x: int,
    folder: &Folder,
    attrs: Seq<FetchAttr>,
    uid_mode: bool,
)
    ensures
        fetch_lines(nums.push(x), folder, attrs, uid_mode) == fetch_lines(
            nums,
            folder,
            attrs,
            uid_mode,
        ) + fetch_line_for(x, folder, attrs, uid_mode),
    decreases nums.len(),
{
    if nums.len() == 0 {
        assert(nums.push(x)[0] == x);
        assert(nums.push(x).drop_first() =~= Seq::<int>::empty());
        assert(fetch_lines(Seq::<int>::empty(), folder, attrs, uid_mode) == Seq::<u8>::empty());
        assert(fetch_lines(nums, folder, attrs, uid_mode) == Seq::<u8>::empty());
        assert(fetch_lines(nums.push(x), folder, attrs, uid_mode) =~= fetch_line_for(
            x,
            folder,
            attrs,
            uid_mode,
        ));
        assert(fetch_lines(nums, folder, attrs, uid_mode) + fetch_line_for(
            x,
            folder,
            attrs,
            uid_mode,
        ) =~= fetch_line_for(x, folder, attrs, uid_mode));
    } else {
        lemma_fetch_snoc(nums.drop_first(), x, folder, attrs, uid_mode);
        assert(nums.push(x).drop_first() =~= nums.drop_first().push(x));
        assert(nums.push(x)[0] == nums[0]);
        assert(fetch_line_for(nums[0], folder, attrs, uid_mode) + (fetch_lines(
            nums.drop_first(),
            folder,
            attrs,
            uid_mode,
        ) + fetch_line_for(x, folder, attrs, uid_mode)) =~= (fetch_line_for(
            nums[0],
            folder,
            attrs,
            uid_mode,
        ) + fetch_lines(nums.drop_first(), folder, attrs, uid_mode)) + fetch_line_for(
            x,
            folder,
            attrs,
            uid_mode,
        ));
    }
}

/// The first index holding a uid is the first match of a left-to-right
/// scan.
proof fn lemma_uid_index(mails: Seq<Mail>, uid: int, j: int)
    requires
        0 <= j <= mails.len(),
        forall|k: int| 0 <= k < j ==> mails[k].uid != uid,
        j < mails.len() ==> mails[j].uid == uid,
        j == mails.len() ==> forall|k: int| 0 <= k < mails.len() ==> mails[k].uid != uid,
    ensures
        uid_index(mails, uid) == j,
    decreases mails.len(),
{
    if mails.len() == 0 {
    } else if j == 0 {
    } else {
        assert(mails[0].uid != uid);
        lemma_uid_index(mails.drop_first(), uid, j - 1);
    }
}

/// Find the first mail with this uid.
fn find_uid(folder: &Folder, uid: u64) -> (j: usize)
    ensures
        j as int == uid_index(folder.mails@, uid as int),
        j <= folder.mails@.len(),
{
    let mut j: usize = 0;
    while j < folder.mails.len()
        invariant
            j <= folder.mails@.len(),
            forall|k: int| 0 <= k < j ==> folder.mails@[k].uid != uid as int,
        decreases folder.mails@.len() - j,
    {
        if folder.mails[j].uid as u64 == uid {
            proof {
                lemma_uid_index(folder.mails@, uid as int, j as int);
            }
            return j;
        }
        j = j + 1;
    }
    proof {
        lemma_uid_index(folder.mails@, uid as int, j as int);
    }
    j
}

/// Append the response line for one emitted number, if it matches a
/// mail.
fn emit_num(
    out: &mut Vec<u8>,
    num: u64,
    folder: &Folder,
    attrs: &Vec<FetchAttr>,
    uid_mode: bool,
)
    requires
        folder.wf(),
        attrs_supported(attrs@),
        folder.mails@.len() <= u32::MAX,
    ensures
        final(out)@ == old(out)@ + fetch_line_for(num as int, folder, attrs@, uid_mode),
{
    if uid_mode {
        let j = find_uid(folder, num);
        if j < folder.mails.len() {
            proof {
                assert(folder.mails@[j as int].wf());
            }
            let m = &folder.mails[j];
            crate::wire::append_lit(out, "* ");
            let n = crate::wire::fmt_u64((j as u64) + 1);
            crate::wire::append_bytes(out, n.as_slice());
            crate::wire::append_lit(out, " FETCH (");
            let aw = render_attrs(attrs, m);
            crate::wire::append_bytes(out, aw.as_slice());
            crate::wire::append_lit(out, ")\r\n");
        }
    } else {
        if 1 <= num && num <= folder.mails.len() as u64 {
            let idx: usize = (num - 1) as usize;
            proof {
                assert(folder.mails@[idx as int].wf());
            }
            let m = &folder.mails[idx];
            crate::wire::append_lit(out, "* ");
            let n = crate::wire::fmt_u64(num);
            crate::wire::append_bytes(out, n.as_slice());
            crate::wire::append_lit(out, " FETCH (");
            let aw = render_attrs(attrs, m);
            crate::wire::append_bytes(out, aw.as_slice());
            crate::wire::append_lit(out, ")\r\n");
        }
    }
}

/// The value of a sequence-set number.
fn seqnum_value(s: SeqNum, largest: u64) -> (r: u64)
    requires
        largest <= u32::MAX,
    ensures
        r as int == seqnum_val(s, largest as int),
        r <= u32::MAX,
{
    match s {
        SeqNum::Value(v) => v as u64,
        SeqNum::Largest => largest,
    }
}

/// The largest uid in the folder.
fn compute_max_uid(folder: &Folder) -> (r: u64)
    ensures
        r as int == max_uid(folder.mails@),
        r <= u32::MAX,
{
    let mut r: u64 = 0;
    let n: usize = folder.mails.len();
    let mut i: usize = n;
    while i > 0
        invariant
            i <= n,
            n == folder.mails@.len(),
            r <= u32::MAX,
            r as int == max_uid(folder.mails@.skip(i as int)),
        decreases i,
    {
        i = i - 1;
        let u: u64 = folder.mails[i].uid as u64;
        proof {
            let rest = folder.mails@.skip(i as int);
            assert(rest[0] == folder.mails@[i as int]);
            assert(rest.drop_first() =~= folder.mails@.skip(i + 1));
        }
        if u > r {
            r = u;
        }
    }
    proof {
        assert(folder.mails@.skip(0) =~= folder.mails@);
    }
    r
}

/// Append the lines for one span of numbers; returns the remaining
/// budget.
fn emit_span(
    out: &mut Vec<u8>,
    from: u64,
    to: u64,
    budget: usize,
    folder: &Folder,
    attrs: &Vec<FetchAttr>,
    uid_mode: bool,
) -> (new_budget: usize)
    requires
        folder.wf(),
        attrs_supported(attrs@),
        folder.mails@.len() <= u32::MAX,
        from <= to,
        to <= u32::MAX,
        budget <= 500,
    ensures
        ({
            let h = range_seq(from as int, (to + 1 - from) as nat);
            let t = if h.len() <= budget {
                h
            } else {
                h.take(budget as int)
            };
            final(out)@ == old(out)@ + fetch_lines(t, folder, attrs@, uid_mode) && new_budget
                == budget - t.len()
        }),
{
    let ghost h = range_seq(from as int, (to + 1 - from) as nat);
    let mut v: u64 = from;
    let mut left: usize = budget;
    while v <= to && left > 0
        invariant
            folder.wf(),
            attrs_supported(attrs@),
            folder.mails@.len() <= u32::MAX,
            from <= v <= to + 1,
            to <= u32::MAX,
            left <= budget <= 500,
            v - from == budget - left,
            h == range_seq(from as int, (to + 1 - from) as nat),
            out@ == old(out)@ + fetch_lines(
                range_seq(from as int, (v - from) as nat),
                folder,
                attrs@,
                uid_mode,
            ),
        decreases to + 1 - v,
    {
        emit_num(out, v, folder, attrs, uid_mode);
        proof {
            lemma_range_snoc(from as int, (v - from) as nat);
            lemma_fetch_snoc(
                range_seq(from as int, (v - from) as nat),
                v as int,
                folder,
                attrs@,
                uid_mode,
            );
        }
        v = v + 1;
        left = left - 1;
    }
    proof {
        let k = (v - from) as nat;
        lemma_range_props(from as int, (to + 1 - from) as nat);
        assert(h.len() == to + 1 - from);
        if v > to {
            assert(k == h.len());
            assert(h.len() <= budget);
            assert(range_seq(from as int, k) == h);
        } else {
            assert(left == 0);
            assert(k == budget);
            assert(k < h.len());
            lemma_range_take(from as int, (to + 1 - from) as nat, k);
            assert(h.take(budget as int) == range_seq(from as int, k));
        }
    }
    left
}

/// Render the whole untagged FETCH output.
#[verifier::rlimit(60)]
pub fn render_fetch(
    folder: &Folder,
    set: &Vec<SeqRange>,
    attrs: &Vec<FetchAttr>,
    uid_mode: bool,
) -> (r: Vec<u8>)
    requires
        folder.wf(),
        folder.mails@.len() >= 1,
        folder.mails@.len() <= u32::MAX,
        attrs_supported(attrs@),
        set_valid(set@),
    ensures
        r@ == fetch_wire(folder, set@, attrs@, uid_mode),
{
    let largest: u64 = if uid_mode {
        compute_max_uid(folder)
    } else {
        folder.mails.len() as u64
    };
    proof {
        assert(largest as int == fetch_largest(folder, uid_mode));
    }
    let mut out: Vec<u8> = Vec::new();
    let mut budget: usize = 500;
    let mut i: usize = 0;
    proof {
        assert(set@.skip(0) =~= set@);
    }
    while i < set.len() && budget > 0
        invariant
            folder.wf(),
            attrs_supported(attrs@),
            set_valid(set@),
            folder.mails@.len() <= u32::MAX,
            largest as int == fetch_largest(folder, uid_mode),
            largest <= u32::MAX,
            i <= set@.len(),
            budget <= 500,
            fetch_wire(folder, set@, attrs@, uid_mode) == out@ + fetch_lines(
                expand_budget(set@.skip(i as int), largest as int, budget as int),
                folder,
                attrs@,
                uid_mode,
            ),
        decreases set@.len() - i,
    {
        let ghost rest = set@.skip(i as int);
        let ghost out0 = out@;
        let ghost budget0 = budget as int;
        proof {
            assert(rest[0] == set@[i as int]);
            assert(rest.drop_first() =~= set@.skip(i + 1));
        }
        match set[i] {
            SeqRange::Single(s) => {
                let v = seqnum_value(s, largest);
                emit_num(&mut out, v, folder, attrs, uid_mode);
                budget = budget - 1;
                proof {
                    let h = head_vals(set@[i as int], largest as int);
                    assert(h =~= seq![v as int]);
                    assert(h.len() == 1 <= budget0);
                    assert(h[0] == v as int);
                    assert(h.drop_first() =~= Seq::<int>::empty());
                    assert(fetch_lines(Seq::<int>::empty(), folder, attrs@, uid_mode) == Seq::<
                        u8,
                    >::empty());
                    assert(fetch_lines(h, folder, attrs@, uid_mode) =~= fetch_line_for(
                        v as int,
                        folder,
                        attrs@,
                        uid_mode,
                    ));
                    assert(expand_budget(rest, largest as int, budget0) == h + expand_budget(
                        set@.skip(i + 1),
                        largest as int,
                        budget0 - 1,
                    ));
                    lemma_fetch_concat(
                        h,
                        expand_budget(set@.skip(i + 1), largest as int, budget0 - 1),
                        folder,
                        attrs@,
                        uid_mode,
                    );
                }
            }
            SeqRange::Span(a, b) => {
                let from = seqnum_value(a, largest);
                let to = seqnum_value(b, largest);
                if from <= to {
                    let nb = emit_span(&mut out, from, to, budget, folder, attrs, uid_mode);
                    proof {
                        let h = head_vals(set@[i as int], largest as int);
                        assert(h == range_seq(from as int, (to + 1 - from) as nat));
                        let t = if h.len() <= budget0 {
                            h
                        } else {
                            h.take(budget0)
                        };
                        assert(out@ == out0 + fetch_lines(t, folder, attrs@, uid_mode));
                        assert(nb == budget0 - t.len());
                        assert(expand_budget(rest, largest as int, budget0) == t + expand_budget(
                            set@.skip(i + 1),
                            largest as int,
                            budget0 - t.len(),
                        ));
                        lemma_fetch_concat(
                            t,
                            expand_budget(set@.skip(i + 1), largest as int, budget0 - t.len()),
                            folder,
                            attrs@,
                            uid_mode,
                        );
                    }
                    budget = nb;
                } else {
                    proof {
                        let h = head_vals(set@[i as int], largest as int);
                        assert(h.len() == 0);
                        assert(h =~= Seq::<int>::empty());
                        assert(expand_budget(rest, largest as int, budget0) =~= expand_budget(
                            set@.skip(i + 1),
                            largest as int,
                            budget0,
                        ));
                    }
                }
            }
        }
        i = i + 1;
    }
    proof {
        if i < set@.len() {
            assert(budget == 0);
            assert(expand_budget(set@.skip(i as int), largest as int, 0).len() == 0);
        } else {
            assert(set@.skip(i as int).len() == 0);
        }
        assert(fetch_lines(
            expand_budget(set@.skip(i as int), largest as int, budget as int),
            folder,
            attrs@,
            uid_mode,
        ).len() == 0);
        assert(out@ + fetch_lines(
            expand_budget(set@.skip(i as int), largest as int, budget as int),
            folder,
            attrs@,
            uid_mode,
        ) =~= out@);
    }
    out
}

/// Response lines distribute over concatenation of emitted numbers.
proof fn lemma_fetch_concat(
    a: Seq<int>,
    b: Seq<int>,
    folder: &Folder,
    attrs: Seq<FetchAttr>,
    uid_mode: bool,
)
    ensures
        fetch_lines(a + b, folder, attrs, uid_mode) == fetch_lines(a, folder, attrs, uid_mode)
            + fetch_lines(b, folder, attrs, uid_mode),
    decreases a.len(),
{
    if a.len() == 0 {
        assert(a + b =~= b);
        assert(fetch_lines(a, folder, attrs, uid_mode) + fetch_lines(b, folder, attrs, uid_mode)
            =~= fetch_lines(b, folder, attrs, uid_mode));
    } else {
        lemma_fetch_concat(a.drop_first(), b, folder, attrs, uid_mode);
        assert((a + b).drop_first() =~= a.drop_first() + b);
        assert((a + b)[0] == a[0]);
        assert(fetch_line_for(a[0], folder, attrs, uid_mode) + (fetch_lines(
            a.drop_first(),
            folder,
            attrs,
            uid_mode,
        ) + fetch_lines(b, folder, attrs, uid_mode)) =~= (fetch_line_for(
            a[0],
            folder,
            attrs,
            uid_mode,
        ) + fetch_lines(a.drop_first(), folder, attrs, uid_mode)) + fetch_lines(
            b,
            folder,
            attrs,
            uid_mode,
        ));
    }
}

/// The FETCH emission cap: however large the sequence set, at most
/// `budget` numbers are ever emitted — the engine uses a budget of 500.
pub proof fn lemma_fetch_emission_cap(set: Seq<SeqRange>, largest: int, budget: int)
    requires
        budget >= 0,
    ensures
        expand_budget(set, largest, budget).len() <= budget,
    decreases set.len(),
{
    if set.len() == 0 || budget <= 0 {
    } else {
        let h = head_vals(set[0], largest);
        let t = if h.len() <= budget {
            h
        } else {
            h.take(budget)
        };
        lemma_fetch_emission_cap(set.drop_first(), largest, budget - t.len());
    }
}

} // verus!
