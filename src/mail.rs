//! The message model: recipients, sender, content variants, keyed entries
//! (attachments, inline content, custom headers) and provider options.

use crate::error::SendgridError;
use crate::json::{json_object, json_object_text};
use vstd::prelude::*;

verus! {

/// Keyed entries as text, in insertion order.
pub type EntriesView = Seq<(Seq<char>, Seq<char>)>;

/// The text view of a list of strings.
pub open spec fn texts(v: Seq<String>) -> Seq<Seq<char>> {
    v.map_values(|s: String| s@)
}

/// The text view of a list of keyed entries.
pub open spec fn entries(v: Seq<(String, String)>) -> EntriesView {
    v.map_values(|p: (String, String)| (p.0@, p.1@))
}

/// No key occurs twice.
pub open spec fn keys_unique(e: EntriesView) -> bool {
    forall|i: int, j: int| 0 <= i < e.len() && 0 <= j < e.len() && e[i].0 == e[j].0 ==> i == j
}

/// Some entry has key `k`.
pub open spec fn has_key(e: EntriesView, k: Seq<char>) -> bool {
    exists|i: int| 0 <= i < e.len() && e[i].0 == k
}

/// Map insertion on entries: the entry with key `k` gets value `v` in place,
/// or, where there is none, `(k, v)` is appended.
pub open spec fn entries_insert(e: EntriesView, k: Seq<char>, v: Seq<char>) -> EntriesView {
    if has_key(e, k) {
        let i = choose|i: int| 0 <= i < e.len() && e[i].0 == k;
        e.update(i, (k, v))
    } else {
        e.push((k, v))
    }
}

/// The entries as a map from key to value.
pub open spec fn entries_map(e: EntriesView) -> Map<Seq<char>, Seq<char>> {
    Map::new(|k: Seq<char>| has_key(e, k), |k: Seq<char>| e[choose|i: int| 0 <= i < e.len() && e[i].0 == k].1)
}

/// What a message holds, as text.
pub ghost struct MailView {
    pub to: Seq<Seq<char>>,
    pub to_names: Seq<Seq<char>>,
    pub cc: Seq<Seq<char>>,
    pub bcc: Seq<Seq<char>>,
    pub from: Seq<char>,
    pub subject: Seq<char>,
    pub html: Seq<char>,
    pub text: Seq<char>,
    pub from_name: Seq<char>,
    pub reply_to: Seq<char>,
    pub date: Seq<char>,
    pub attachments: EntriesView,
    pub content: EntriesView,
    pub headers: EntriesView,
    pub x_smtpapi: Seq<char>,
}

impl MailView {
    /// Every keyed field has unique keys.
    pub open spec fn wf(self) -> bool {
        &&& keys_unique(self.attachments)
        &&& keys_unique(self.content)
        &&& keys_unique(self.headers)
    }

    /// A message with every field empty.
    pub open spec fn empty() -> MailView {
        MailView {
            to: Seq::empty(),
            to_names: Seq::empty(),
            cc: Seq::empty(),
            bcc: Seq::empty(),
            from: Seq::empty(),
            subject: Seq::empty(),
            html: Seq::empty(),
            text: Seq::empty(),
            from_name: Seq::empty(),
            reply_to: Seq::empty(),
            date: Seq::empty(),
            attachments: Seq::empty(),
            content: Seq::empty(),
            headers: Seq::empty(),
            x_smtpapi: Seq::empty(),
        }
    }
}

/// One outbound email, filled field by field before it is encoded.
pub struct Mail {
    pub(crate) to: Vec<String>,
    pub(crate) to_names: Vec<String>,
    pub(crate) cc: Vec<String>,
    pub(crate) bcc: Vec<String>,
    pub(crate) from: String,
    pub(crate) subject: String,
    pub(crate) html: String,
    pub(crate) text: String,
    pub(crate) from_name: String,
    pub(crate) reply_to: String,
    pub(crate) date: String,
    pub(crate) attachments: Vec<(String, String)>,
    pub(crate) content: Vec<(String, String)>,
    pub(crate) headers: Vec<(String, String)>,
    pub(crate) x_smtpapi: String,
}

impl View for Mail {
    type V = MailView;

    open(crate) spec fn view(&self) -> MailView {
        MailView {
            to: texts(self.to@),
            to_names: texts(self.to_names@),
            cc: texts(self.cc@),
            bcc: texts(self.bcc@),
            from: self.from@,
            subject: self.subject@,
            html: self.html@,
            text: self.text@,
            from_name: self.from_name@,
            reply_to: self.reply_to@,
            date: self.date@,
            attachments: entries(self.attachments@),
            content: entries(self.content@),
            headers: entries(self.headers@),
            x_smtpapi: self.x_smtpapi@,
        }
    }
}

/// Appends `s` to a list of strings.
fn push_text(v: &mut Vec<String>, s: &str)
    ensures
        texts(final(v)@) == texts(old(v)@).push(s@),
{
    v.push(String::from_str(s));
    assert(texts(v@) =~= texts(old(v)@).push(s@));
}

/// Inserts `(k, value)` into keyed entries, replacing the value of an entry
/// with the same key.
fn insert_entry(v: &mut Vec<(String, String)>, k: &str, value: &str)
    requires
        keys_unique(entries(old(v)@)),
    ensures
        keys_unique(entries(final(v)@)),
        entries(final(v)@) == entries_insert(entries(old(v)@), k@, value@),
{
    let ghost e = entries(v@);
    let key = String::from_str(k);
    let val = String::from_str(value);
    let mut i: usize = 0;
    while i < v.len()
        invariant
            0 <= i <= v@.len(),
            v@ == old(v)@,
            e == entries(v@),
            keys_unique(e),
            key@ == k@,
            val@ == value@,
            forall|j: int| 0 <= j < i ==> e[j].0 != k@,
        decreases v@.len() - i,
    {
        if v[i].0 == key {
            proof {
                assert(e[i as int].0 == k@);
                assert(has_key(e, k@));
                let c = choose|c: int| 0 <= c < e.len() && e[c].0 == k@;
                assert(c == i);
            }
            let ghost before = v@;
            v.set(i, (key, val));
            assert(v@ == before.update(i as int, (key, val)));
            assert(entries(v@) =~= e.update(i as int, (k@, value@)));
            return;
        }
        i = i + 1;
    }
    v.push((key, val));
    assert(entries(v@) =~= e.push((k@, value@)));
}

impl Mail {
    /// The model's invariant: keyed fields have unique keys.
    pub closed spec fn wf(&self) -> bool {
        self@.wf()
    }

    /// An empty message.
    pub fn new() -> (r: Mail)
        ensures
            r.wf(),
            r@ == MailView::empty(),
    {
        let r = Mail {
            to: Vec::new(),
            to_names: Vec::new(),
            cc: Vec::new(),
            bcc: Vec::new(),
            from: String::new(),
            subject: String::new(),
            html: String::new(),
            text: String::new(),
            from_name: String::new(),
            reply_to: String::new(),
            date: String::new(),
            attachments: Vec::new(),
            content: Vec::new(),
            headers: Vec::new(),
            x_smtpapi: String::new(),
        };
        assert(r@.to =~= Seq::empty());
        assert(r@.to_names =~= Seq::empty());
        assert(r@.cc =~= Seq::empty());
        assert(r@.bcc =~= Seq::empty());
        assert(r@.attachments =~= Seq::empty());
        assert(r@.content =~= Seq::empty());
        assert(r@.headers =~= Seq::empty());
        r
    }

    /// The headers as a JSON object text, `{}` when there are none. Always
    /// succeeds, as every text has a JSON rendering.
    pub fn make_header_string(&self) -> (r: Result<String, SendgridError>)
        ensures
            r matches Ok(t) && t@ == json_object_text(self@.headers),
    {
        json_object(&self.headers)
    }

    /// Appends a recipient address.
    pub fn add_to(&mut self, addr: &str)
        requires
            old(self).wf(),
        ensures
            final(self).wf(),
            final(self)@ == (MailView { to: old(self)@.to.push(addr@), ..old(self)@ }),
    {
        push_text(&mut self.to, addr);
    }

    /// Appends a recipient display name.
    pub fn add_to_name(&mut self, name: &str)
        requires
            old(self).wf(),
        ensures
            final(self).wf(),
            final(self)@ == (MailView { to_names: old(self)@.to_names.push(name@), ..old(self)@ }),
    {
        push_text(&mut self.to_names, name);
    }

    /// Appends a carbon-copy address.
    pub fn add_cc(&mut self, addr: &str)
        requires
            old(self).wf(),
        ensures
            final(self).wf(),
            final(self)@ == (MailView { cc: old(self)@.cc.push(addr@), ..old(self)@ }),
    {
        push_text(&mut self.cc, addr);
    }

    /// Appends a blind carbon-copy address.
    pub fn add_bcc(&mut self, addr: &str)
        requires
            old(self).wf(),
        ensures
            final(self).wf(),
            final(self)@ == (MailView { bcc: old(self)@.bcc.push(addr@), ..old(self)@ }),
    {
        push_text(&mut self.bcc, addr);
    }

    /// Sets the sender address.
    pub fn add_from(&mut self, addr: &str)
        requires
            old(self).wf(),
        ensures
            final(self).wf(),
            final(self)@ == (MailView { from: addr@, ..old(self)@ }),
    {
        self.from = String::from_str(addr);
    }

    /// Sets the subject.
    pub fn add_subject(&mut self, subject: &str)
        requires
            old(self).wf(),
        ensures
            final(self).wf(),
            final(self)@ == (MailView { subject: subject@, ..old(self)@ }),
    {
        self.subject = String::from_str(subject);
    }

    /// Sets the HTML body.
    pub fn add_html(&mut self, html: &str)
        requires
            old(self).wf(),
        ensures
            final(self).wf(),
            final(self)@ == (MailView { html: html@, ..old(self)@ }),
    {
        self.html = String::from_str(html);
    }

    /// Sets the plain-text body.
    pub fn add_text(&mut self, text: &str)
        requires
            old(self).wf(),
        ensures
            final(self).wf(),
            final(self)@ == (MailView { text: text@, ..old(self)@ }),
    {
        self.text = String::from_str(text);
    }

    /// Sets the sender display name.
    pub fn add_from_name(&mut self, name: &str)
        requires
            old(self).wf(),
        ensures
            final(self).wf(),
            final(self)@ == (MailView { from_name: name@, ..old(self)@ }),
    {
        self.from_name = String::from_str(name);
    }

    /// Sets the reply-to address.
    pub fn add_reply_to(&mut self, addr: &str)
        requires
            old(self).wf(),
        ensures
            final(self).wf(),
            final(self)@ == (MailView { reply_to: addr@, ..old(self)@ }),
    {
        self.reply_to = String::from_str(addr);
    }

    /// Sets the date, as given.
    pub fn add_date(&mut self, date: &str)
        requires
            old(self).wf(),
        ensures
            final(self).wf(),
            final(self)@ == (MailView { date: date@, ..old(self)@ }),
    {
        self.date = String::from_str(date);
    }

    /// Sets the pre-serialized provider options.
    pub fn add_x_smtpapi(&mut self, options: &str)
        requires
            old(self).wf(),
        ensures
            final(self).wf(),
            final(self)@ == (MailView { x_smtpapi: options@, ..old(self)@ }),
    {
        self.x_smtpapi = String::from_str(options);
    }

    /// Inserts an attachment, file name to contents; an entry with the same key gets the new value.
    pub fn add_attachment(&mut self, name: &str, contents: &str)
        requires
            old(self).wf(),
        ensures
            final(self).wf(),
            final(self)@ == (MailView {
                attachments: entries_insert(old(self)@.attachments, name@, contents@),
                ..old(self)@
            }),
    {
        insert_entry(&mut self.attachments, name, contents);
    }

    /// Inserts an inline content entry, content id to value; an entry with the same key gets the new value.
    pub fn add_content(&mut self, id: &str, value: &str)
        requires
            old(self).wf(),
        ensures
            final(self).wf(),
            final(self)@ == (MailView {
                content: entries_insert(old(self)@.content, id@, value@),
                ..old(self)@
            }),
    {
        insert_entry(&mut self.content, id, value);
    }

    /// Inserts a custom header, name to value; an entry with the same key gets the new value.
    pub fn add_header(&mut self, name: &str, value: &str)
        requires
            old(self).wf(),
        ensures
            final(self).wf(),
            final(self)@ == (MailView {
                headers: entries_insert(old(self)@.headers, name@, value@),
                ..old(self)@
            }),
    {
        insert_entry(&mut self.headers, name, value);
    }
}

} // verus!
