//! Options of the MIME → MML interpretation: which headers and parts to
//! show, and what to do with attachments, as the command line and the
//! `[read]` settings decide them.

pub mod cli;

use vstd::prelude::*;

use crate::cli::account::{merged, pick, Account};

verus! {

/// Which headers of the message are shown.
#[derive(Clone, Debug, PartialEq, Eq)]
pub enum FilterHeaders {
    /// All of them.
    All,
    /// Only these.
    Include(Vec<String>),
    /// All but these.
    Exclude(Vec<String>),
}

/// Which parts of the message are shown, by MIME type.
#[derive(Clone, Debug, PartialEq, Eq)]
pub enum FilterParts {
    /// All of them.
    All,
    /// Only those of this type.
    Only(String),
    /// Only those of these types.
    Include(Vec<String>),
    /// All but those of these types.
    Exclude(Vec<String>),
}

/// Mathematical value of a [`FilterHeaders`].
pub enum FilterHeadersView {
    All,
    Include(Seq<Seq<char>>),
    Exclude(Seq<Seq<char>>),
}

/// Mathematical value of a [`FilterParts`].
pub enum FilterPartsView {
    All,
    Only(Seq<char>),
    Include(Seq<Seq<char>>),
    Exclude(Seq<Seq<char>>),
}

impl View for FilterHeaders {
    type V = FilterHeadersView;

    open spec fn view(&self) -> FilterHeadersView {
        match self {
            FilterHeaders::All => FilterHeadersView::All,
            FilterHeaders::Include(v) => FilterHeadersView::Include(v.deep_view()),
            FilterHeaders::Exclude(v) => FilterHeadersView::Exclude(v.deep_view()),
        }
    }
}

impl View for FilterParts {
    type V = FilterPartsView;

    open spec fn view(&self) -> FilterPartsView {
        match self {
            FilterParts::All => FilterPartsView::All,
            FilterParts::Only(t) => FilterPartsView::Only(t@),
            FilterParts::Include(v) => FilterPartsView::Include(v.deep_view()),
            FilterParts::Exclude(v) => FilterPartsView::Exclude(v.deep_view()),
        }
    }
}

/// The header filter that an exclusion list and an inclusion list give:
/// the exclusion wins; with neither, all headers are shown.
pub open spec fn headers_filter(
    exclusion: Option<Seq<Seq<char>>>,
    inclusion: Option<Seq<Seq<char>>>,
) -> FilterHeadersView {
    match exclusion {
        Some(e) => FilterHeadersView::Exclude(e),
        None => match inclusion {
            Some(i) => FilterHeadersView::Include(i),
            None => FilterHeadersView::All,
        },
    }
}

/// The part filter that an exclusion list and an inclusion list give:
/// the exclusion wins; an inclusion of a single type shows only that
/// type; with neither, all parts are shown.
pub open spec fn parts_filter(
    exclusion: Option<Seq<Seq<char>>>,
    inclusion: Option<Seq<Seq<char>>>,
) -> FilterPartsView {
    match exclusion {
        Some(e) => FilterPartsView::Exclude(e),
        None => match inclusion {
            Some(i) => if i.len() == 1 {
                FilterPartsView::Only(i[0])
            } else {
                FilterPartsView::Include(i)
            },
            None => FilterPartsView::All,
        },
    }
}

/// A copy of a list of strings.
pub fn clone_strings(v: &Vec<String>) -> (r: Vec<String>)
    ensures
        r.deep_view() == v.deep_view(),
{
    let r = v.clone();
    assert forall|i: int| 0 <= i < r@.len() implies r.deep_view()[i] == v.deep_view()[i] by {
        assert(cloned::<String>(v@[i], r@[i]));
    }
    assert(r.deep_view() =~= v.deep_view());
    r
}

/// The header filter for the given lists; see [`headers_filter`].
pub fn select_headers_filter(
    exclusion: &Option<Vec<String>>,
    inclusion: &Option<Vec<String>>,
) -> (r: FilterHeaders)
    ensures
        r@ == headers_filter(exclusion.deep_view(), inclusion.deep_view()),
{
    match exclusion {
        Some(e) => FilterHeaders::Exclude(clone_strings(e)),
        None => match inclusion {
            Some(i) => FilterHeaders::Include(clone_strings(i)),
            None => FilterHeaders::All,
        },
    }
}

/// The part filter for the given lists; see [`parts_filter`].
pub fn select_parts_filter(exclusion: &Option<Vec<String>>, inclusion: &Option<Vec<String>>) -> (r:
    FilterParts)
    ensures
        r@ == parts_filter(exclusion.deep_view(), inclusion.deep_view()),
{
    match exclusion {
        Some(e) => FilterParts::Exclude(clone_strings(e)),
        None => match inclusion {
            Some(i) => if i.len() == 1 {
                FilterParts::Only(i[0].clone())
            } else {
                FilterParts::Include(clone_strings(i))
            },
            None => FilterParts::All,
        },
    }
}

/// A command-line switch as a layer of the merge: on sets the value, off
/// leaves the lower layers in effect.
pub fn flag(v: bool) -> (r: Option<bool>)
    ensures
        r == (if v {
            Some(true)
        } else {
            None
        }),
{
    if v {
        Some(true)
    } else {
        None
    }
}

/// The interpretation settings given on the command line.
pub struct InterpreterSettings {
    pub mime: Option<String>,
    pub include_header: Option<Vec<String>>,
    pub exclude_header: Option<Vec<String>>,
    pub include_part: Option<Vec<String>>,
    pub exclude_part: Option<Vec<String>>,
    pub show_multiparts: bool,
    pub save_attachments: bool,
    pub save_attachments_dir: Option<std::path::PathBuf>,
    pub hide_attachments: bool,
    pub hide_inline_attachments: bool,
    pub hide_plain_texts_signature: bool,
}

/// What the interpretation is asked to do.
pub struct ReadOptions {
    pub filter_headers: FilterHeaders,
    pub filter_parts: FilterParts,
    pub show_multiparts: bool,
    pub save_attachments: bool,
    pub save_attachments_dir: Option<std::path::PathBuf>,
    pub show_attachments: bool,
    pub show_inline_attachments: bool,
    pub show_plain_texts_signature: bool,
}

/// `Some(true)` for a switch that is on, `None` otherwise.
pub open spec fn flag_layer(v: bool) -> Option<bool> {
    if v {
        Some(true)
    } else {
        None
    }
}

/// The value of an optional setting, `false` when unset.
pub open spec fn or_false(v: Option<bool>) -> bool {
    match v {
        Some(b) => b,
        None => false,
    }
}

impl InterpreterSettings {
    /// The command line as a layer of the merge: the lists and the
    /// directory it gives, and the switches it turns on; nothing else set.
    pub open spec fn as_layer(&self) -> Account {
        Account {
            read_include_headers: self.include_header,
            read_exclude_headers: self.exclude_header,
            read_include_parts: self.include_part,
            read_exclude_parts: self.exclude_part,
            read_show_multiparts: flag_layer(self.show_multiparts),
            read_save_attachments: flag_layer(self.save_attachments),
            read_save_attachments_dir: self.save_attachments_dir,
            read_hide_attachments: flag_layer(self.hide_attachments),
            read_hide_inline_attachments: flag_layer(self.hide_inline_attachments),
            read_hide_plain_texts_signature: flag_layer(self.hide_plain_texts_signature),
            ..Account::unset()
        }
    }

    /// The command line always wins and the account fills in the blanks:
    /// layering the command line is merging its layer on top of the
    /// account. A switch that is off leaves the account's setting. This
    /// holds unless the command line gives one kind of header (or part)
    /// list and the account the other kind, where the command line's
    /// filter replaces the account's (see [`InterpreterSettings::layered`]).
    pub proof fn lemma_layered_is_merge(&self, account: Account)
        requires
            self.include_header is Some ==> account.read_exclude_headers is None,
            self.exclude_header is Some ==> account.read_include_headers is None,
            self.include_part is Some ==> account.read_exclude_parts is None,
            self.exclude_part is Some ==> account.read_include_parts is None,
        ensures
            self.layered(account) == merged(account, self.as_layer()),
    {
    }

    /// Whether the command line gives a header filter.
    pub open spec fn gives_headers(self) -> bool {
        self.include_header is Some || self.exclude_header is Some
    }

    /// Whether the command line gives a part filter.
    pub open spec fn gives_parts(self) -> bool {
        self.include_part is Some || self.exclude_part is Some
    }

    /// The account's `[read]` settings with the command line on top: a
    /// header (or part) filter given on the command line, by either list,
    /// replaces both lists of the account's; a directory given replaces
    /// the account's; a switch that is on sets its setting.
    pub open spec fn layered(self, account: Account) -> Account {
        Account {
            read_include_headers: if self.gives_headers() {
                self.include_header
            } else {
                account.read_include_headers
            },
            read_exclude_headers: if self.gives_headers() {
                self.exclude_header
            } else {
                account.read_exclude_headers
            },
            read_include_parts: if self.gives_parts() {
                self.include_part
            } else {
                account.read_include_parts
            },
            read_exclude_parts: if self.gives_parts() {
                self.exclude_part
            } else {
                account.read_exclude_parts
            },
            read_show_multiparts: pick(account.read_show_multiparts, flag_layer(self.show_multiparts)),
            read_save_attachments: pick(account.read_save_attachments, flag_layer(self.save_attachments)),
            read_save_attachments_dir: pick(account.read_save_attachments_dir, self.save_attachments_dir),
            read_hide_attachments: pick(account.read_hide_attachments, flag_layer(self.hide_attachments)),
            read_hide_inline_attachments: pick(
                account.read_hide_inline_attachments,
                flag_layer(self.hide_inline_attachments),
            ),
            read_hide_plain_texts_signature: pick(
                account.read_hide_plain_texts_signature,
                flag_layer(self.hide_plain_texts_signature),
            ),
            ..account
        }
    }

    /// The options of the interpretation: the settings of the account
    /// and the command line (see [`InterpreterSettings::layered`]); each
    /// filter from its exclusion and inclusion lists, each `hide_*`
    /// setting turned into a `show_*` option, unset switches off. Also
    /// returns the message given on the command line, if any.
    pub fn read_options(self, account: Account) -> (r: (Option<String>, ReadOptions))
        ensures
            ({
                let a = self.layered(account);
                &&& r.0 == self.mime
                &&& r.1.filter_headers@ == headers_filter(
                    a.read_exclude_headers.deep_view(),
                    a.read_include_headers.deep_view(),
                )
                &&& r.1.filter_parts@ == parts_filter(
                    a.read_exclude_parts.deep_view(),
                    a.read_include_parts.deep_view(),
                )
                &&& r.1.show_multiparts == or_false(a.read_show_multiparts)
                &&& r.1.save_attachments == or_false(a.read_save_attachments)
                &&& r.1.save_attachments_dir == a.read_save_attachments_dir
                &&& r.1.show_attachments == !or_false(a.read_hide_attachments)
                &&& r.1.show_inline_attachments == !or_false(a.read_hide_inline_attachments)
                &&& r.1.show_plain_texts_signature == !or_false(a.read_hide_plain_texts_signature)
            }),
    {
        let gives_headers = self.include_header.is_some() || self.exclude_header.is_some();
        let gives_parts = self.include_part.is_some() || self.exclude_part.is_some();
        let mut account = account;
        if gives_headers {
            account.read_include_headers = self.include_header;
            account.read_exclude_headers = self.exclude_header;
        }
        if gives_parts {
            account.read_include_parts = self.include_part;
            account.read_exclude_parts = self.exclude_part;
        }
        let account = account.with_read_show_multiparts(flag(self.show_multiparts)).with_read_save_attachments(
            flag(self.save_attachments),
        ).with_read_save_attachments_dir(self.save_attachments_dir).with_read_hide_attachments(
            flag(self.hide_attachments),
        ).with_read_hide_inline_attachments(flag(self.hide_inline_attachments)).with_read_hide_plain_texts_signature(
            flag(self.hide_plain_texts_signature),
        );
        let filter_headers = select_headers_filter(
            &account.read_exclude_headers,
            &account.read_include_headers,
        );
        let filter_parts = select_parts_filter(&account.read_exclude_parts, &account.read_include_parts);
        let show_multiparts = match account.read_show_multiparts {
            Some(b) => b,
            None => false,
        };
        let save_attachments = match account.read_save_attachments {
            Some(b) => b,
            None => false,
        };
        let hide_attachments = match account.read_hide_attachments {
            Some(b) => b,
            None => false,
        };
        let hide_inline = match account.read_hide_inline_attachments {
            Some(b) => b,
            None => false,
        };
        let hide_signature = match account.read_hide_plain_texts_signature {
            Some(b) => b,
            None => false,
        };
        (
            self.mime,
            ReadOptions {
                filter_headers,
                filter_parts,
                show_multiparts,
                save_attachments,
                save_attachments_dir: account.read_save_attachments_dir,
                show_attachments: !hide_attachments,
                show_inline_attachments: !hide_inline,
                show_plain_texts_signature: !hide_signature,
            },
        )
    }
}

} // verus!
