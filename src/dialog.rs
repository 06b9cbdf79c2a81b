//! A dialog's configuration as an immutable value: each configuration step
//! hands back a new `Dialog` and leaves the old one as it was.
use vstd::prelude::*;
use vstd::utf8::{decode_utf8, encode_utf8, encode_utf8_decode_utf8, encode_utf8_valid_utf8, valid_utf8};
use crate::json::{json_string_items, parse_string_items};
use crate::envelope::{multi_envelope, reports_success, single_envelope, lemma_envelopes_report_success};
use crate::native::{native_copy, native_with_directory, native_with_filter, new_native};
use crate::text::decode_text;

verus! {

/// Why a configuration step refused its input.
#[derive(Debug, Clone, Copy, PartialEq, Eq, Structural)]
pub enum DialogError {
    /// The bytes handed in are not valid UTF-8.
    InvalidEncoding,
    /// The text is not JSON, or not a JSON array.
    MalformedInput,
}

/// One extension filter: a display name and the extensions it admits.
pub struct Filter {
    pub name: String,
    pub extensions: Vec<String>,
}

/// A filter as values: its name and its extensions, in order.
pub struct FilterView {
    pub name: Seq<char>,
    pub extensions: Seq<Seq<char>>,
}

impl View for Filter {
    type V = FilterView;

    open spec fn view(&self) -> FilterView {
        FilterView { name: self.name@, extensions: self.extensions.deep_view() }
    }
}

/// A file dialog's configuration: where it starts, and its filters in the
/// order in which they were added.
pub struct Dialog {
    native: rfd::FileDialog,
    directory: Option<String>,
    filters: Vec<Filter>,
}

/// A dialog's configuration as values.
pub struct DialogView {
    pub directory: Option<Seq<char>>,
    pub filters: Seq<FilterView>,
}

impl View for Dialog {
    type V = DialogView;

    closed spec fn view(&self) -> DialogView {
        DialogView {
            directory: self.directory.deep_view(),
            filters: filter_views(self.filters@),
        }
    }
}

/// The views of a sequence of filters.
pub open spec fn filter_views(fs: Seq<Filter>) -> Seq<FilterView> {
    fs.map_values(|f: Filter| f@)
}

/// The name that `add_filter` gives its filter.
pub open spec fn default_filter_name() -> Seq<char> {
    "fff"@
}

/// The texts among the items, in order; the other items are dropped.
pub open spec fn texts_of(items: Seq<Option<Seq<char>>>) -> Seq<Seq<char>>
    decreases items.len(),
{
    if items.len() == 0 {
        Seq::empty()
    } else {
        let rest = texts_of(items.drop_last());
        match items.last() {
            Some(t) => rest.push(t),
            None => rest,
        }
    }
}

/// A configuration step's outcome, as views.
pub open spec fn outcome(r: Result<Dialog, DialogError>) -> Result<DialogView, DialogError> {
    match r {
        Ok(d) => Ok(d@),
        Err(e) => Err(e),
    }
}

impl DialogView {
    /// This configuration with its starting directory set to `dir`.
    pub open spec fn with_directory(self, dir: Seq<char>) -> DialogView {
        DialogView { directory: Some(dir), filters: self.filters }
    }

    /// This configuration with one more filter at the end.
    pub open spec fn with_filter(self, name: Seq<char>, extensions: Seq<Seq<char>>) -> DialogView {
        DialogView {
            directory: self.directory,
            filters: self.filters.push(FilterView { name, extensions }),
        }
    }

    /// What setting the starting directory from the bytes `p` gives.
    pub open spec fn directory_outcome(self, p: Seq<u8>) -> Result<DialogView, DialogError> {
        if valid_utf8(p) {
            Ok(self.with_directory(decode_utf8(p)))
        } else {
            Err(DialogError::InvalidEncoding)
        }
    }

    /// What adding a filter named `name` from the JSON text in the bytes
    /// `ext` gives: the array's strings become the filter's extensions.
    pub open spec fn filter_outcome(self, name: Seq<char>, ext: Seq<u8>) -> Result<
        DialogView,
        DialogError,
    > {
        if !valid_utf8(ext) {
            Err(DialogError::InvalidEncoding)
        } else {
            match json_string_items(decode_utf8(ext)) {
                Some(Some(items)) => Ok(self.with_filter(name, texts_of(items))),
                _ => Err(DialogError::MalformedInput),
            }
        }
    }
}

/// Any text can be made the starting directory: setting it from its UTF-8
/// bytes succeeds, and keeps the filters as they were.
pub proof fn lemma_text_sets_directory(d: DialogView, path: Seq<char>)
    ensures
        d.directory_outcome(encode_utf8(path)) == Ok::<DialogView, DialogError>(
            d.with_directory(path),
        ),
{
    encode_utf8_valid_utf8(path);
    encode_utf8_decode_utf8(path);
}

proof fn lemma_all_texts(texts: Seq<Seq<char>>)
    ensures
        texts_of(texts.map_values(|t: Seq<char>| Some(t))) == texts,
    decreases texts.len(),
{
    let items = texts.map_values(|t: Seq<char>| Some(t));
    if texts.len() > 0 {
        assert(items.drop_last() =~= texts.drop_last().map_values(|t: Seq<char>| Some(t)));
        lemma_all_texts(texts.drop_last());
        assert(texts.drop_last().push(texts.last()) =~= texts);
    } else {
        assert(texts =~= Seq::<Seq<char>>::empty());
    }
}

/// A filter from a JSON array of strings is always accepted, with exactly
/// those strings as its extensions; whatever a dialog then reports is an
/// envelope that carries its success flag.
pub proof fn lemma_string_array_filter(
    d: DialogView,
    name: Seq<char>,
    ext: Seq<u8>,
    texts: Seq<Seq<char>>,
    one: Option<Seq<char>>,
    many: Option<Seq<Seq<char>>>,
)
    requires
        valid_utf8(ext),
        json_string_items(decode_utf8(ext)) == Some(
            Some(texts.map_values(|t: Seq<char>| Some(t))),
        ),
    ensures
        d.filter_outcome(name, ext) == Ok::<DialogView, DialogError>(d.with_filter(name, texts)),
        reports_success(single_envelope(one), one is Some),
        reports_success(multi_envelope(many), many is Some),
{
    lemma_all_texts(texts);
    lemma_envelopes_report_success(one, many);
}

/// Two filter steps on JSON arrays both succeed, and the filters accumulate:
/// the earlier ones stay, then the first step's, then the second's.
pub proof fn lemma_filters_accumulate(
    d: DialogView,
    name1: Seq<char>,
    ext1: Seq<u8>,
    name2: Seq<char>,
    ext2: Seq<u8>,
)
    requires
        valid_utf8(ext1),
        json_string_items(decode_utf8(ext1)) matches Some(Some(_)),
        valid_utf8(ext2),
        json_string_items(decode_utf8(ext2)) matches Some(Some(_)),
    ensures
        d.filter_outcome(name1, ext1) is Ok,
        d.filter_outcome(name1, ext1)->Ok_0.filter_outcome(name2, ext2) is Ok,
        ({
            let d2 = d.filter_outcome(name1, ext1)->Ok_0.filter_outcome(name2, ext2)->Ok_0;
            let n = d.filters.len();
            &&& d2.directory == d.directory
            &&& d2.filters.len() == n + 2
            &&& d2.filters.take(n as int) == d.filters
            &&& d2.filters[n as int] == (FilterView {
                name: name1,
                extensions: texts_of(json_string_items(decode_utf8(ext1))->Some_0->Some_0),
            })
            &&& d2.filters[n + 1int] == (FilterView {
                name: name2,
                extensions: texts_of(json_string_items(decode_utf8(ext2))->Some_0->Some_0),
            })
        }),
{
    let d2 = d.filter_outcome(name1, ext1)->Ok_0.filter_outcome(name2, ext2)->Ok_0;
    assert(d2.filters.take(d.filters.len() as int) =~= d.filters);
}

impl Filter {
    fn duplicate(&self) -> (r: Filter)
        ensures
            r@ == self@,
    {
        Filter { name: self.name.clone(), extensions: copy_texts(&self.extensions) }
    }
}

/// The texts among `items`, in order: any item that was not a JSON string
/// is dropped.
pub fn keep_strings(items: &Vec<Option<String>>) -> (r: Vec<String>)
    ensures
        r.deep_view() == texts_of(items.deep_view()),
{
    let ghost all = items.deep_view();
    let mut r: Vec<String> = Vec::new();
    let mut i: usize = 0;
    while i < items.len()
        invariant
            i <= items.len(),
            all == items.deep_view(),
            r.deep_view() == texts_of(all.take(i as int)),
        decreases items.len() - i,
    {
        let ghost before = r.deep_view();
        assert(all.take(i as int + 1).drop_last() =~= all.take(i as int));
        match &items[i] {
            Some(t) => {
                r.push(t.clone());
                assert(r.deep_view() =~= before.push(t@));
            },
            None => {},
        }
        i = i + 1;
    }
    assert(all.take(items.len() as int) =~= all);
    r
}

fn copy_filters(v: &Vec<Filter>) -> (r: Vec<Filter>)
    ensures
        filter_views(r@) == filter_views(v@),
{
    let mut r: Vec<Filter> = Vec::new();
    let mut i: usize = 0;
    while i < v.len()
        invariant
            i <= v.len(),
            filter_views(r@) =~= filter_views(v@).take(i as int),
        decreases v.len() - i,
    {
        let ghost before = r@;
        let f = v[i].duplicate();
        r.push(f);
        assert(r@ =~= before.push(f));
        assert(filter_views(r@) =~= filter_views(before).push(f@));
        assert(filter_views(r@) =~= filter_views(v@).take(i as int + 1));
        i = i + 1;
    }
    assert(filter_views(v@).take(v.len() as int) =~= filter_views(v@));
    r
}

fn copy_directory(d: &Option<String>) -> (r: Option<String>)
    ensures
        r.deep_view() == d.deep_view(),
{
    match d {
        Some(t) => Some(t.clone()),
        None => None,
    }
}

impl Dialog {
    /// A dialog with no starting directory and no filters.
    pub fn new() -> (r: Dialog)
        ensures
            r@ == (DialogView { directory: None, filters: Seq::empty() }),
    {
        let r = Dialog { native: new_native(), directory: None, filters: Vec::new() };
        assert(r@.filters =~= Seq::<FilterView>::empty());
        r
    }

    /// This dialog, starting in the directory whose path is the UTF-8 text
    /// `p`. Whether that directory exists is left to the native dialog.
    pub fn set_directory(&self, p: &[u8]) -> (r: Result<Dialog, DialogError>)
        ensures
            outcome(r) == self@.directory_outcome(p@),
    {
        match decode_text(p) {
            Ok(path) => {
                let native = native_with_directory(&self.native, path);
                Ok(
                    Dialog {
                        native,
                        directory: Some(String::from_str(path)),
                        filters: copy_filters(&self.filters),
                    },
                )
            },
            Err(_) => Err(DialogError::InvalidEncoding),
        }
    }

    /// This dialog with one more filter, named `name`, whose extensions are
    /// the strings of the JSON array in the UTF-8 text `extensions`.
    pub fn add_named_filter(&self, name: &str, extensions: &[u8]) -> (r: Result<
        Dialog,
        DialogError,
    >)
        ensures
            outcome(r) == self@.filter_outcome(name@, extensions@),
    {
        let text = match decode_text(extensions) {
            Ok(t) => t,
            Err(_) => {
                return Err(DialogError::InvalidEncoding);
            },
        };
        let items = match parse_string_items(text) {
            Ok(Some(items)) => items,
            _ => {
                return Err(DialogError::MalformedInput);
            },
        };
        let exts = keep_strings(&items);
        let native = native_with_filter(&self.native, name, &exts);
        let mut filters = copy_filters(&self.filters);
        let f = Filter { name: String::from_str(name), extensions: exts };
        filters.push(f);
        let r = Dialog { native, directory: copy_directory(&self.directory), filters };
        assert(r@.filters =~= self@.filters.push(f@));
        Ok(r)
    }

    /// This dialog with one more filter, under the default name, whose
    /// extensions are the strings of the JSON array in the UTF-8 text
    /// `extensions`.
    pub fn add_filter(&self, extensions: &[u8]) -> (r: Result<Dialog, DialogError>)
        ensures
            outcome(r) == self@.filter_outcome(default_filter_name(), extensions@),
    {
        self.add_named_filter("fff", extensions)
    }

    /// The starting directory, if one was set.
    pub fn directory(&self) -> (r: Option<String>)
        ensures
            r.deep_view() == self@.directory,
    {
        copy_directory(&self.directory)
    }

    /// The filters, in the order in which they were added.
    pub fn filters(&self) -> (r: Vec<Filter>)
        ensures
            filter_views(r@) == self@.filters,
    {
        copy_filters(&self.filters)
    }

    /// A native dialog builder configured as this dialog is, ready to be
    /// shown.
    pub fn file_dialog(&self) -> rfd::FileDialog {
        native_copy(&self.native)
    }
}

fn copy_texts(v: &Vec<String>) -> (r: Vec<String>)
    ensures
        r.deep_view() == v.deep_view(),
{
    let mut r: Vec<String> = Vec::new();
    let mut i: usize = 0;
    while i < v.len()
        invariant
            i <= v.len(),
            r.deep_view() =~= v.deep_view().take(i as int),
        decreases v.len() - i,
    {
        let ghost before = r.deep_view();
        let t = v[i].clone();
        r.push(t);
        assert(r.deep_view() =~= before.push(v.deep_view()[i as int]));
        assert(v.deep_view().take(i as int + 1) =~= v.deep_view().take(i as int).push(
            v.deep_view()[i as int],
        ));
        i = i + 1;
    }
    assert(v.deep_view().take(v.len() as int) =~= v.deep_view());
    r
}

} // verus!
