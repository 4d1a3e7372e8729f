use vstd::prelude::*;

use crate::text;
use crate::text::{
    chars_of, contains_chars, first_line_end, join_path, join_strings, push_char, push_decimal,
    push_signed_decimal, push_str, same_chars, starts_with_chars, string_of_range, trim_bounds,
};

verus! {

// ---------------------------------------------------------------------------
// History rows
// ---------------------------------------------------------------------------

/// One row of the clipboard history as the list shows it.
#[derive(Debug, Clone)]
pub struct HistoryEntry {
    pub id: i64,
    pub title: String,
    pub subtitle: String,
}

// ---------------------------------------------------------------------------
// Pasteboard type identifiers
// ---------------------------------------------------------------------------

/// A type identifier that carries plain text.
pub open spec fn text_type(t: Seq<char>) -> bool {
    ||| text::starts_with(t, "public.utf8-plain-text"@)
    ||| text::starts_with(t, "public.utf16-plain-text"@)
    ||| text::starts_with(t, "public.text"@)
    ||| text::starts_with(t, "NSStringPboardType"@)
    ||| text::starts_with(t, "public.plain-text"@)
}

/// A type identifier that carries a file URL.
pub open spec fn file_url_type(t: Seq<char>) -> bool {
    text::contains(t, "file-url"@)
}

/// A type identifier that carries an image.
pub open spec fn image_type(t: Seq<char>) -> bool {
    ||| text::contains(t, "image"@)
    ||| text::contains(t, "png"@)
    ||| text::contains(t, "jpeg"@)
    ||| text::contains(t, "tiff"@)
}

/// Whether the pasteboard type carries plain text: it is one of the known
/// plain-text identifiers or begins with one of them.
pub fn is_text_type(type_identifier: &str) -> (r: bool)
    ensures
        r == text_type(type_identifier@),
{
    let t = chars_of(type_identifier);
    starts_with_chars(&t, &chars_of("public.utf8-plain-text")) || starts_with_chars(
        &t,
        &chars_of("public.utf16-plain-text"),
    ) || starts_with_chars(&t, &chars_of("public.text")) || starts_with_chars(
        &t,
        &chars_of("NSStringPboardType"),
    ) || starts_with_chars(&t, &chars_of("public.plain-text"))
}

/// Whether the pasteboard type carries a file URL.
pub fn is_file_url_type(type_identifier: &str) -> (r: bool)
    ensures
        r == file_url_type(type_identifier@),
{
    let t = chars_of(type_identifier);
    contains_chars(&t, &chars_of("file-url"))
}

/// Whether the pasteboard type carries an image.
pub fn is_image_type(type_identifier: &str) -> (r: bool)
    ensures
        r == image_type(type_identifier@),
{
    let t = chars_of(type_identifier);
    contains_chars(&t, &chars_of("image")) || contains_chars(&t, &chars_of("png"))
        || contains_chars(&t, &chars_of("jpeg")) || contains_chars(&t, &chars_of("tiff"))
}

// ---------------------------------------------------------------------------
// Preview text
// ---------------------------------------------------------------------------

/// The first line of `text` with surrounding white space removed.
pub open spec fn normalized(text: Seq<char>) -> Seq<char> {
    text::trim(text::first_line(text))
}

/// `text` cut to `max` characters, with an ellipsis where something was cut.
pub open spec fn truncated(text: Seq<char>, max: nat) -> Seq<char> {
    if text.len() <= max {
        text
    } else {
        text.take(max as int).push('…')
    }
}

/// `s` without its trailing slashes.
pub open spec fn without_trailing_slashes(s: Seq<char>) -> Seq<char>
    decreases s.len(),
{
    if s.len() > 0 && s.last() == '/' {
        without_trailing_slashes(s.drop_last())
    } else {
        s
    }
}

/// The characters of `s` after its last slash (all of `s` if it has none).
pub open spec fn after_last_slash(s: Seq<char>) -> Seq<char>
    decreases s.len(),
{
    if s.len() == 0 {
        s
    } else if s.last() == '/' {
        Seq::empty()
    } else {
        after_last_slash(s.drop_last()).push(s.last())
    }
}

/// The last non-empty path segment of a file URL; the URL itself when
/// there is none.
pub open spec fn file_name_of_url(url: Seq<char>) -> Seq<char> {
    let segment = after_last_slash(without_trailing_slashes(url));
    if segment.len() > 0 {
        segment
    } else {
        url
    }
}

/// Bounds of the last path segment of `v` once trailing slashes are left out.
fn file_name_bounds(v: &Vec<char>) -> (r: (usize, usize))
    ensures
        r.0 <= r.1 <= v.len(),
        v@.subrange(r.0 as int, r.1 as int) == after_last_slash(without_trailing_slashes(v@)),
{
    let mut end = v.len();
    assert(v@.take(end as int) =~= v@);
    while end > 0 && v[end - 1] == '/'
        invariant
            end <= v.len(),
            without_trailing_slashes(v@) == without_trailing_slashes(v@.take(end as int)),
        decreases end,
    {
        assert(v@.take(end as int).drop_last() =~= v@.take(end - 1));
        end = end - 1;
    }
    let ghost trimmed = v@.take(end as int);
    assert(without_trailing_slashes(trimmed) == trimmed);
    let mut start = end;
    assert(v@.subrange(end as int, end as int) =~= Seq::<char>::empty());
    assert(after_last_slash(trimmed) =~= after_last_slash(v@.take(start as int)) + v@.subrange(
        start as int,
        end as int,
    ));
    while start > 0 && v[start - 1] != '/'
        invariant
            start <= end <= v.len(),
            trimmed == v@.take(end as int),
            after_last_slash(trimmed) == after_last_slash(v@.take(start as int)) + v@.subrange(
                start as int,
                end as int,
            ),
        decreases start,
    {
        let ghost prefix = v@.take(start as int);
        assert(prefix.drop_last() =~= v@.take(start - 1));
        assert(after_last_slash(prefix) == after_last_slash(v@.take(start - 1)).push(v@[start - 1]));
        assert(v@.subrange(start - 1, end as int) =~= seq![v@[start - 1]] + v@.subrange(
            start as int,
            end as int,
        ));
        assert(after_last_slash(v@.take(start - 1)).push(v@[start - 1]) + v@.subrange(
            start as int,
            end as int,
        ) =~= after_last_slash(v@.take(start - 1)) + v@.subrange(start - 1, end as int));
        start = start - 1;
    }
    assert(after_last_slash(v@.take(start as int)) =~= Seq::<char>::empty());
    assert(Seq::<char>::empty() + v@.subrange(start as int, end as int) =~= v@.subrange(
        start as int,
        end as int,
    ));
    (start, end)
}

/// The first line of `text`, trimmed.
pub fn normalize_preview(text: &str) -> (r: String)
    ensures
        r@ == normalized(text@),
{
    let v = chars_of(text);
    let end = first_line_end(&v);
    let (lo, hi) = trim_bounds(&v, 0, end);
    assert(v@.subrange(0, end as int) =~= v@.take(end as int));
    string_of_range(&v, lo, hi)
}

/// At most `max_chars` characters of `text`, followed by `…` when the text
/// was longer.
pub fn truncate_preview(text: &str, max_chars: usize) -> (r: String)
    ensures
        r@ == truncated(text@, max_chars as nat),
{
    let v = chars_of(text);
    if v.len() <= max_chars {
        let r = string_of_range(&v, 0, v.len());
        assert(v@.subrange(0, v@.len() as int) =~= v@);
        r
    } else {
        let mut r = string_of_range(&v, 0, max_chars);
        push_char(&mut r, '…');
        assert(v@.subrange(0, max_chars as int) =~= v@.take(max_chars as int));
        r
    }
}

/// The file name at the end of a file URL; the URL itself when it has no
/// non-empty last segment.
pub fn file_name_from_url(file_url: &str) -> (r: String)
    ensures
        r@ == file_name_of_url(file_url@),
{
    let v = chars_of(file_url);
    let (lo, hi) = file_name_bounds(&v);
    if lo < hi {
        string_of_range(&v, lo, hi)
    } else {
        let r = string_of_range(&v, 0, v.len());
        assert(v@.subrange(0, v@.len() as int) =~= v@);
        r
    }
}

// ---------------------------------------------------------------------------
// Stored representation kinds
// ---------------------------------------------------------------------------

/// How the bytes of a stored representation are to be handed back to the
/// pasteboard.
#[derive(Debug, Clone, Copy, PartialEq, Eq, Structural)]
pub enum RepresentationKind {
    /// Raw bytes (`setData:forType:`).
    Data,
    /// UTF-8 text (`setString:forType:`).
    Text,
    /// A binary property list (`setPropertyList:forType:`).
    PropertyList,
}

/// The label under which a kind is stored.
pub open spec fn kind_label(kind: RepresentationKind) -> Seq<char> {
    match kind {
        RepresentationKind::Data => "data"@,
        RepresentationKind::Text => "string"@,
        RepresentationKind::PropertyList => "plist"@,
    }
}

/// The kind a stored label stands for; an unknown label reads as raw data.
pub open spec fn kind_of_label(label: Seq<char>) -> RepresentationKind {
    if label == "string"@ {
        RepresentationKind::Text
    } else if label == "plist"@ {
        RepresentationKind::PropertyList
    } else {
        RepresentationKind::Data
    }
}

impl RepresentationKind {
    /// The label under which this kind is stored.
    pub fn label(&self) -> (r: &'static str)
        ensures
            r@ == kind_label(*self),
    {
        match self {
            RepresentationKind::Data => "data",
            RepresentationKind::Text => "string",
            RepresentationKind::PropertyList => "plist",
        }
    }

    /// The kind that a stored label stands for.
    pub fn from_label(label: &str) -> (r: RepresentationKind)
        ensures
            r == kind_of_label(label@),
    {
        let l = chars_of(label);
        if same_chars(&l, &chars_of("string")) {
            RepresentationKind::Text
        } else if same_chars(&l, &chars_of("plist")) {
            RepresentationKind::PropertyList
        } else {
            RepresentationKind::Data
        }
    }
}

/// Reading back the label that a kind was stored under gives the same kind.
pub proof fn lemma_kind_label_round_trip(kind: RepresentationKind)
    ensures
        kind_of_label(kind_label(kind)) == kind,
{
    reveal_strlit("data");
    reveal_strlit("string");
    reveal_strlit("plist");
    assert("data"@ != "string"@ && "data"@ != "plist"@ && "string"@ != "plist"@) by {
        assert("data"@[0] != "string"@[0]);
        assert("data"@[0] != "plist"@[0]);
        assert("string"@[0] != "plist"@[0]);
    }
}

// ---------------------------------------------------------------------------
// Change tracking
// ---------------------------------------------------------------------------

/// Remembers the pasteboard change count that was last seen.
pub struct ClipboardWatcher {
    pub last_change_count: isize,
}

/// The watcher after it sees `change_count`, and whether that count is new.
pub open spec fn observed(watcher: ClipboardWatcher, change_count: isize) -> (ClipboardWatcher, bool) {
    (ClipboardWatcher { last_change_count: change_count }, change_count != watcher.last_change_count)
}

impl ClipboardWatcher {
    /// A watcher that has seen `change_count`.
    pub fn new(change_count: isize) -> (r: ClipboardWatcher)
        ensures
            r.last_change_count == change_count,
    {
        ClipboardWatcher { last_change_count: change_count }
    }

    /// Records `change_count` and tells whether the pasteboard changed since
    /// the count last seen.
    pub fn observe_change_count(&mut self, change_count: isize) -> (changed: bool)
        ensures
            (*final(self), changed) == observed(*old(self), change_count),
    {
        if change_count == self.last_change_count {
            return false;
        }
        self.last_change_count = change_count;
        true
    }

    /// Records the change count that a write of this program produced, so
    /// that the write is not taken for a new copy.
    pub fn record_own_write(&mut self, change_count: isize)
        ensures
            final(self).last_change_count == change_count,
    {
        self.last_change_count = change_count;
    }
}

/// A count that was just seen is not reported as a change a second time.
pub proof fn lemma_observe_twice(watcher: ClipboardWatcher, change_count: isize)
    ensures
        !observed(observed(watcher, change_count).0, change_count).1,
        observed(observed(watcher, change_count).0, change_count).0 == observed(
            watcher,
            change_count,
        ).0,
{
}

// ---------------------------------------------------------------------------
// Captured pasteboard contents
// ---------------------------------------------------------------------------

/// One representation of a pasteboard item, kept so that it can be written
/// back byte for byte.
#[derive(Debug, Clone)]
pub struct ClipboardRepresentation {
    pub type_identifier: String,
    pub kind: RepresentationKind,
    pub payload: Vec<u8>,
}

/// One pasteboard item with the representations that could be read.
#[derive(Debug, Clone)]
pub struct ClipboardItem {
    pub item_index: i64,
    pub representations: Vec<ClipboardRepresentation>,
}

/// A snapshot of the pasteboard with the title and subtitle the history
/// list shows for it.
#[derive(Debug, Clone)]
pub struct ClipboardCapture {
    pub items: Vec<ClipboardItem>,
    pub title: String,
    pub subtitle: String,
}

/// What the pasteboard answered for one type of one item: its string value,
/// its data, and its property list serialised as binary data (or the error
/// the serialisation gave).
#[derive(Debug)]
pub struct PasteboardTypeRead {
    pub type_identifier: String,
    pub text: Option<String>,
    pub data: Option<Vec<u8>>,
    pub property_list: Result<Option<Vec<u8>>, String>,
}

/// The model of a representation.
pub struct RepresentationModel {
    pub type_identifier: Seq<char>,
    pub kind: RepresentationKind,
    pub payload: Seq<u8>,
}

/// The model of an item.
pub struct ItemModel {
    pub item_index: int,
    pub representations: Seq<RepresentationModel>,
}

/// The model of a capture.
pub struct CaptureModel {
    pub items: Seq<ItemModel>,
    pub title: Seq<char>,
    pub subtitle: Seq<char>,
}

/// The model of what was read for one type.
pub struct TypeReadModel {
    pub type_identifier: Seq<char>,
    pub text: Option<Seq<char>>,
    pub data: Option<Seq<u8>>,
    pub property_list: Result<Option<Seq<u8>>, Seq<char>>,
}

impl View for ClipboardRepresentation {
    type V = RepresentationModel;

    open spec fn view(&self) -> RepresentationModel {
        RepresentationModel {
            type_identifier: self.type_identifier@,
            kind: self.kind,
            payload: self.payload@,
        }
    }
}

impl View for ClipboardItem {
    type V = ItemModel;

    open spec fn view(&self) -> ItemModel {
        ItemModel {
            item_index: self.item_index as int,
            representations: self.representations@.map_values(|r: ClipboardRepresentation| r@),
        }
    }
}

impl View for ClipboardCapture {
    type V = CaptureModel;

    open spec fn view(&self) -> CaptureModel {
        CaptureModel {
            items: self.items@.map_values(|i: ClipboardItem| i@),
            title: self.title@,
            subtitle: self.subtitle@,
        }
    }
}

impl View for PasteboardTypeRead {
    type V = TypeReadModel;

    open spec fn view(&self) -> TypeReadModel {
        TypeReadModel {
            type_identifier: self.type_identifier@,
            text: match self.text {
                Some(s) => Some(s@),
                None => None,
            },
            data: match self.data {
                Some(d) => Some(d@),
                None => None,
            },
            property_list: match self.property_list {
                Ok(Some(p)) => Ok(Some(p@)),
                Ok(None) => Ok(None),
                Err(e) => Err(e@),
            },
        }
    }
}

/// The representation kept for one type: its data if it has any, else its
/// string value as UTF-8, else its property list; an error of the property
/// list serialisation counts only where neither data nor a string exists.
pub open spec fn representation_of(t: TypeReadModel) -> Result<Option<RepresentationModel>, Seq<char>> {
    match t.data {
        Some(d) => Ok(
            Some(
                RepresentationModel {
                    type_identifier: t.type_identifier,
                    kind: RepresentationKind::Data,
                    payload: d,
                },
            ),
        ),
        None => match t.text {
            Some(s) => Ok(
                Some(
                    RepresentationModel {
                        type_identifier: t.type_identifier,
                        kind: RepresentationKind::Text,
                        payload: vstd::utf8::encode_utf8(s),
                    },
                ),
            ),
            None => match t.property_list {
                Ok(Some(p)) => Ok(
                    Some(
                        RepresentationModel {
                            type_identifier: t.type_identifier,
                            kind: RepresentationKind::PropertyList,
                            payload: p,
                        },
                    ),
                ),
                Ok(None) => Ok(None),
                Err(e) => Err(e),
            },
        },
    }
}

/// The types of all items, item after item.
pub open spec fn all_types(items: Seq<Seq<TypeReadModel>>) -> Seq<TypeReadModel>
    decreases items.len(),
{
    if items.len() == 0 {
        Seq::empty()
    } else {
        all_types(items.drop_last()) + items.last()
    }
}

/// The error of the first type whose representation could not be read.
pub open spec fn first_error(types: Seq<TypeReadModel>) -> Option<Seq<char>>
    decreases types.len(),
{
    if types.len() == 0 {
        None
    } else {
        match first_error(types.drop_last()) {
            Some(e) => Some(e),
            None => match representation_of(types.last()) {
                Err(e) => Some(e),
                Ok(_) => None,
            },
        }
    }
}

/// The representations kept for a list of types, in order.
pub open spec fn representations_of(types: Seq<TypeReadModel>) -> Seq<RepresentationModel>
    decreases types.len(),
{
    if types.len() == 0 {
        Seq::empty()
    } else {
        representations_of(types.drop_last()) + match representation_of(types.last()) {
            Ok(Some(r)) => seq![r],
            _ => Seq::empty(),
        }
    }
}

/// The items that have at least one representation, each with its position
/// among all items.
pub open spec fn captured_items(items: Seq<Seq<TypeReadModel>>) -> Seq<ItemModel>
    decreases items.len(),
{
    if items.len() == 0 {
        Seq::empty()
    } else {
        let reps = representations_of(items.last());
        if reps.len() > 0 {
            captured_items(items.drop_last()).push(
                ItemModel { item_index: items.len() - 1, representations: reps },
            )
        } else {
            captured_items(items.drop_last())
        }
    }
}

/// The string value of the first plain-text type that has one.
pub open spec fn preview_text(types: Seq<TypeReadModel>) -> Option<Seq<char>>
    decreases types.len(),
{
    if types.len() == 0 {
        None
    } else {
        let earlier = preview_text(types.drop_last());
        if earlier is Some {
            earlier
        } else if text_type(types.last().type_identifier) {
            types.last().text
        } else {
            None
        }
    }
}

/// The file names of the file URLs among the types, in order.
pub open spec fn file_names(types: Seq<TypeReadModel>) -> Seq<Seq<char>>
    decreases types.len(),
{
    if types.len() == 0 {
        Seq::empty()
    } else {
        let t = types.last();
        file_names(types.drop_last()) + if file_url_type(t.type_identifier) && t.text is Some {
            seq![file_name_of_url(t.text->0)]
        } else {
            Seq::empty()
        }
    }
}

/// Whether some type is an image type.
pub open spec fn has_image_type(types: Seq<TypeReadModel>) -> bool {
    exists|i: int| 0 <= i < types.len() && image_type(#[trigger] types[i].type_identifier)
}

/// The identifiers of the first three types.
pub open spec fn leading_type_identifiers(types: Seq<TypeReadModel>) -> Seq<Seq<char>> {
    types.take(if types.len() < 3 { types.len() as int } else { 3 }).map_values(
        |t: TypeReadModel| t.type_identifier,
    )
}

/// The title and subtitle shown for a capture: text is summarised by its
/// first line, files by their names, images by their count, anything else by
/// its leading type identifiers.
pub open spec fn capture_summary(
    preview: Option<Seq<char>>,
    files: Seq<Seq<char>>,
    has_image: bool,
    leading_types: Seq<Seq<char>>,
    item_count: nat,
    representation_count: nat,
) -> (Seq<char>, Seq<char>) {
    match preview {
        Some(text) => (
            truncated(normalized(text), 42),
            "文本 · "@ + text::decimal(item_count) + " 项 · "@ + text::decimal(representation_count)
                + " 个原始表示"@,
        ),
        None => if files.len() > 0 {
            (
                if files.len() == 1 {
                    files[0]
                } else {
                    text::decimal(files.len()) + " 个文件"@
                },
                truncated("文件 · "@ + text::join(files, "、"@), 54),
            )
        } else if has_image {
            (
                if item_count == 1 {
                    "图片"@
                } else {
                    text::decimal(item_count) + " 个图片项目"@
                },
                "图片 · "@ + text::decimal(representation_count) + " 个原始表示"@,
            )
        } else {
            ("其他剪切板内容"@, truncated(text::join(leading_types, " · "@), 54))
        },
    }
}

/// What the pasteboard holds, as a capture: an error if a representation
/// could not be read, nothing if no item has a representation, else the
/// items with their representations and the summary.
pub open spec fn pasteboard_capture(items: Seq<Seq<TypeReadModel>>) -> Result<
    Option<CaptureModel>,
    Seq<char>,
> {
    let types = all_types(items);
    match first_error(types) {
        Some(e) => Err(e),
        None => {
            let captured = captured_items(items);
            if captured.len() == 0 {
                Ok(None)
            } else {
                let summary = capture_summary(
                    preview_text(types),
                    file_names(types),
                    has_image_type(types),
                    leading_type_identifiers(types),
                    captured.len(),
                    representations_of(types).len(),
                );
                Ok(Some(CaptureModel { items: captured, title: summary.0, subtitle: summary.1 }))
            }
        },
    }
}


/// The text views of a list of strings.
pub open spec fn string_views(v: Seq<String>) -> Seq<Seq<char>> {
    v.map_values(|s: String| s@)
}

/// The models of what was read, item by item.
pub open spec fn reads_model(items: Seq<Vec<PasteboardTypeRead>>) -> Seq<Seq<TypeReadModel>> {
    items.map_values(|ts: Vec<PasteboardTypeRead>| ts@.map_values(|t: PasteboardTypeRead| t@))
}

/// The model of a representation result.
pub open spec fn representation_result_view(
    r: Result<Option<ClipboardRepresentation>, String>,
) -> Result<Option<RepresentationModel>, Seq<char>> {
    match r {
        Ok(Some(rep)) => Ok(Some(rep@)),
        Ok(None) => Ok(None),
        Err(e) => Err(e@),
    }
}

/// The model of a capture result.
pub open spec fn capture_result_view(r: Result<Option<ClipboardCapture>, String>) -> Result<
    Option<CaptureModel>,
    Seq<char>,
> {
    match r {
        Ok(Some(c)) => Ok(Some(c@)),
        Ok(None) => Ok(None),
        Err(e) => Err(e@),
    }
}

/// The model of an optional string.
pub open spec fn option_view(o: Option<String>) -> Option<Seq<char>> {
    match o {
        Some(s) => Some(s@),
        None => None,
    }
}

fn copy_string(s: &String) -> (r: String)
    ensures
        r@ == s@,
{
    s.clone()
}

fn copy_bytes(v: &Vec<u8>) -> (r: Vec<u8>)
    ensures
        r@ == v@,
{
    vstd::slice::slice_to_vec(v.as_slice())
}

/// The title and subtitle shown in the history list for a capture.
pub fn summarize_capture(
    preview: &Option<String>,
    files: &Vec<String>,
    has_image: bool,
    leading_types: &Vec<String>,
    item_count: usize,
    representation_count: usize,
) -> (r: (String, String))
    ensures
        (r.0@, r.1@) == capture_summary(
            option_view(*preview),
            string_views(files@),
            has_image,
            string_views(leading_types@),
            item_count as nat,
            representation_count as nat,
        ),
{
    match preview {
        Some(text) => {
            let line = normalize_preview(text.as_str());
            let title = truncate_preview(line.as_str(), 42);
            let mut subtitle = String::new();
            push_str(&mut subtitle, "文本 · ");
            push_decimal(&mut subtitle, item_count as u64);
            push_str(&mut subtitle, " 项 · ");
            push_decimal(&mut subtitle, representation_count as u64);
            push_str(&mut subtitle, " 个原始表示");
            assert(subtitle@ =~= "文本 · "@ + text::decimal(item_count as nat) + " 项 · "@
                + text::decimal(representation_count as nat) + " 个原始表示"@);
            (title, subtitle)
        },
        None => {
            if files.len() > 0 {
                let title = if files.len() == 1 {
                    copy_string(&files[0])
                } else {
                    let mut t = String::new();
                    push_decimal(&mut t, files.len() as u64);
                    push_str(&mut t, " 个文件");
                    assert(t@ =~= text::decimal(files.len() as nat) + " 个文件"@);
                    t
                };
                let mut listing = String::new();
                push_str(&mut listing, "文件 · ");
                let names = join_strings(files, "、");
                push_str(&mut listing, names.as_str());
                let subtitle = truncate_preview(listing.as_str(), 54);
                (title, subtitle)
            } else if has_image {
                let title = if item_count == 1 {
                    let mut t = String::new();
                    push_str(&mut t, "图片");
                    assert(t@ =~= "图片"@);
                    t
                } else {
                    let mut t = String::new();
                    push_decimal(&mut t, item_count as u64);
                    push_str(&mut t, " 个图片项目");
                    assert(t@ =~= text::decimal(item_count as nat) + " 个图片项目"@);
                    t
                };
                let mut subtitle = String::new();
                push_str(&mut subtitle, "图片 · ");
                push_decimal(&mut subtitle, representation_count as u64);
                push_str(&mut subtitle, " 个原始表示");
                assert(subtitle@ =~= "图片 · "@ + text::decimal(representation_count as nat)
                    + " 个原始表示"@);
                (title, subtitle)
            } else {
                let mut title = String::new();
                push_str(&mut title, "其他剪切板内容");
                assert(title@ =~= "其他剪切板内容"@);
                let listing = join_strings(leading_types, " · ");
                let subtitle = truncate_preview(listing.as_str(), 54);
                (title, subtitle)
            }
        },
    }
}

/// The representation kept for one type (see `representation_of`).
pub fn representation_from_read(t: &PasteboardTypeRead) -> (r: Result<
    Option<ClipboardRepresentation>,
    String,
>)
    ensures
        representation_result_view(r) == representation_of(t@),
{
    match &t.data {
        Some(d) => Ok(
            Some(
                ClipboardRepresentation {
                    type_identifier: copy_string(&t.type_identifier),
                    kind: RepresentationKind::Data,
                    payload: copy_bytes(d),
                },
            ),
        ),
        None => match &t.text {
            Some(s) => Ok(
                Some(
                    ClipboardRepresentation {
                        type_identifier: copy_string(&t.type_identifier),
                        kind: RepresentationKind::Text,
                        payload: vstd::slice::slice_to_vec(s.as_str().as_bytes()),
                    },
                ),
            ),
            None => match &t.property_list {
                Ok(Some(p)) => Ok(
                    Some(
                        ClipboardRepresentation {
                            type_identifier: copy_string(&t.type_identifier),
                            kind: RepresentationKind::PropertyList,
                            payload: copy_bytes(p),
                        },
                    ),
                ),
                Ok(None) => Ok(None),
                Err(e) => Err(copy_string(e)),
            },
        },
    }
}


proof fn lemma_all_types_split(items: Seq<Seq<TypeReadModel>>, k: int)
    requires
        0 <= k <= items.len(),
    ensures
        all_types(items) == all_types(items.take(k)) + all_types(items.skip(k)),
    decreases items.len(),
{
    if k == items.len() {
        assert(items.take(k) =~= items);
        assert(items.skip(k) =~= Seq::<Seq<TypeReadModel>>::empty());
        assert(all_types(items) + Seq::<TypeReadModel>::empty() =~= all_types(items));
    } else {
        let front = items.drop_last();
        lemma_all_types_split(front, k);
        assert(front.take(k) =~= items.take(k));
        assert(items.skip(k).drop_last() =~= front.skip(k));
        assert(items.skip(k).last() == items.last());
        assert(all_types(items) =~= all_types(items.take(k)) + all_types(items.skip(k)));
    }
}

proof fn lemma_first_error_extends(a: Seq<TypeReadModel>, b: Seq<TypeReadModel>)
    requires
        first_error(a) is Some,
    ensures
        first_error(a + b) == first_error(a),
    decreases b.len(),
{
    if b.len() == 0 {
        assert(a + b =~= a);
    } else {
        lemma_first_error_extends(a, b.drop_last());
        assert((a + b).drop_last() =~= a + b.drop_last());
    }
}

proof fn lemma_has_image_push(f: Seq<TypeReadModel>, t: TypeReadModel)
    ensures
        has_image_type(f.push(t)) == (has_image_type(f) || image_type(t.type_identifier)),
{
    let g = f.push(t);
    if has_image_type(f) {
        let i = choose|i: int| 0 <= i < f.len() && image_type(#[trigger] f[i].type_identifier);
        assert(g[i] == f[i]);
    }
    if image_type(t.type_identifier) {
        assert(g[f.len() as int] == t);
    }
    if has_image_type(g) {
        let i = choose|i: int| 0 <= i < g.len() && image_type(#[trigger] g[i].type_identifier);
        if i < f.len() {
            assert(g[i] == f[i]);
        }
    }
}

proof fn lemma_leading_push(f: Seq<TypeReadModel>, t: TypeReadModel)
    ensures
        leading_type_identifiers(f.push(t)) == if f.len() < 3 {
            leading_type_identifiers(f).push(t.type_identifier)
        } else {
            leading_type_identifiers(f)
        },
{
    let g = f.push(t);
    if f.len() < 3 {
        assert(g.take(g.len() as int) =~= f.take(f.len() as int).push(t));
        assert(leading_type_identifiers(g) =~= leading_type_identifiers(f).push(t.type_identifier));
    } else {
        assert(g.take(3) =~= f.take(3));
    }
}

/// Reads a snapshot of the pasteboard from what was read for each type of
/// each item (items in pasteboard order, an empty list for an item that
/// could not be read).
pub fn capture_from_pasteboard(items: &Vec<Vec<PasteboardTypeRead>>) -> (r: Result<
    Option<ClipboardCapture>,
    String,
>)
    requires
        items.len() <= i64::MAX,
        all_types(reads_model(items@)).len() <= usize::MAX,
    ensures
        capture_result_view(r) == pasteboard_capture(reads_model(items@)),
{
    let ghost model = reads_model(items@);
    let mut captured: Vec<ClipboardItem> = Vec::new();
    let mut preview: Option<String> = None;
    let mut files: Vec<String> = Vec::new();
    let mut has_image = false;
    let mut leading: Vec<String> = Vec::new();
    let mut total: usize = 0;
    let mut i: usize = 0;
    assert(model.take(0) =~= Seq::<Seq<TypeReadModel>>::empty());
    assert(leading_type_identifiers(Seq::<TypeReadModel>::empty()) =~= Seq::<Seq<char>>::empty());
    while i < items.len()
        invariant
            i <= items.len() <= i64::MAX,
            model == reads_model(items@),
            all_types(model).len() <= usize::MAX,
            first_error(all_types(model.take(i as int))) is None,
            captured@.map_values(|c: ClipboardItem| c@) == captured_items(model.take(i as int)),
            option_view(preview) == preview_text(all_types(model.take(i as int))),
            string_views(files@) == file_names(all_types(model.take(i as int))),
            has_image == has_image_type(all_types(model.take(i as int))),
            string_views(leading@) == leading_type_identifiers(all_types(model.take(i as int))),
            total as nat == representations_of(all_types(model.take(i as int))).len(),
            total <= all_types(model.take(i as int)).len(),
        decreases items.len() - i,
    {
        let ghost done = all_types(model.take(i as int));
        let ghost ts = model[i as int];
        let types = &items[i];
        assert(ts == types@.map_values(|t: PasteboardTypeRead| t@));
        proof {
            lemma_all_types_split(model, i + 1);
            assert(model.take(i + 1).drop_last() =~= model.take(i as int));
            assert(all_types(model.take(i + 1)) == done + ts);
        }
        let mut reps: Vec<ClipboardRepresentation> = Vec::new();
        let mut j: usize = 0;
        assert(ts.take(0) =~= Seq::<TypeReadModel>::empty());
        assert(done + ts.take(0) =~= done);
        while j < types.len()
            invariant
                i < items.len() <= i64::MAX,
                types == &items@[i as int],
                model == reads_model(items@),
                ts == model[i as int],
                ts == types@.map_values(|t: PasteboardTypeRead| t@),
                done == all_types(model.take(i as int)),
                all_types(model.take(i + 1)) == done + ts,
                all_types(model) == all_types(model.take(i + 1)) + all_types(model.skip(i + 1)),
                all_types(model).len() <= usize::MAX,
                j <= types.len(),
                first_error(done + ts.take(j as int)) is None,
                captured@.map_values(|c: ClipboardItem| c@) == captured_items(model.take(i as int)),
                reps@.map_values(|r: ClipboardRepresentation| r@) == representations_of(
                    ts.take(j as int),
                ),
                option_view(preview) == preview_text(done + ts.take(j as int)),
                string_views(files@) == file_names(done + ts.take(j as int)),
                has_image == has_image_type(done + ts.take(j as int)),
                string_views(leading@) == leading_type_identifiers(done + ts.take(j as int)),
                total as nat == representations_of(done + ts.take(j as int)).len(),
                total <= (done + ts.take(j as int)).len(),
            decreases types.len() - j,
        {
            let t = &types[j];
            let ghost before = done + ts.take(j as int);
            let ghost after = done + ts.take(j + 1);
            proof {
                assert(ts[j as int] == t@);
                assert(after =~= before.push(t@));
                assert(after.drop_last() =~= before);
                assert(ts.take(j + 1).drop_last() =~= ts.take(j as int));
                assert(after.len() <= all_types(model).len()) by {
                    assert(ts =~= ts.take(j + 1) + ts.skip(j + 1));
                    assert(all_types(model) =~= after + (ts.skip(j + 1) + all_types(
                        model.skip(i + 1),
                    )));
                }
                lemma_has_image_push(before, t@);
                lemma_leading_push(before, t@);
            }
            if leading.len() < 3 {
                leading.push(copy_string(&t.type_identifier));
                assert(string_views(leading@) =~= leading_type_identifiers(after));
            }
            if preview.is_none() && is_text_type(t.type_identifier.as_str()) {
                preview = match &t.text {
                    Some(s) => Some(copy_string(s)),
                    None => None,
                };
            }
            if is_file_url_type(t.type_identifier.as_str()) {
                match &t.text {
                    Some(url) => {
                        files.push(file_name_from_url(url.as_str()));
                    },
                    None => {},
                }
            }
            assert(string_views(files@) =~= file_names(after));
            if is_image_type(t.type_identifier.as_str()) {
                has_image = true;
            }
            match representation_from_read(t) {
                Ok(Some(rep)) => {
                    reps.push(rep);
                    total = total + 1;
                    assert(reps@.map_values(|r: ClipboardRepresentation| r@) =~= representations_of(
                        ts.take(j + 1),
                    ));
                },
                Ok(None) => {
                    assert(reps@.map_values(|r: ClipboardRepresentation| r@) =~= representations_of(
                        ts.take(j + 1),
                    ));
                },
                Err(e) => {
                    proof {
                        assert(first_error(after) == Some(e@));
                        lemma_first_error_extends(
                            after,
                            ts.skip(j + 1) + all_types(model.skip(i + 1)),
                        );
                        assert(all_types(model) =~= after + (ts.skip(j + 1) + all_types(
                            model.skip(i + 1),
                        )));
                    }
                    return Err(e);
                },
            }
            j = j + 1;
        }
        assert(ts.take(j as int) =~= ts);
        if reps.len() > 0 {
            captured.push(ClipboardItem { item_index: i as i64, representations: reps });
        }
        proof {
            assert(model.take(i + 1).last() == ts);
            assert(captured@.map_values(|c: ClipboardItem| c@) =~= captured_items(
                model.take(i + 1),
            ));
        }
        i = i + 1;
    }
    assert(model.take(items.len() as int) =~= model);
    if captured.len() == 0 {
        return Ok(None);
    }
    let (title, subtitle) = summarize_capture(
        &preview,
        &files,
        has_image,
        &leading,
        captured.len(),
        total,
    );
    Ok(Some(ClipboardCapture { items: captured, title, subtitle }))
}


/// The message given for a history entry that has nothing to write back.
pub open spec fn missing_entry_message(entry_id: int) -> Seq<char> {
    "未找到可恢复的剪切板条目: "@ + text::signed_decimal(entry_id)
}

/// Checks that a stored entry has items to write back to the pasteboard.
pub fn ensure_restorable(entry_id: i64, items: &Vec<ClipboardItem>) -> (r: Result<(), String>)
    ensures
        r is Err <==> items.len() == 0,
        r matches Err(message) ==> message@ == missing_entry_message(entry_id as int),
{
    if items.len() == 0 {
        let mut message = String::new();
        push_str(&mut message, "未找到可恢复的剪切板条目: ");
        push_signed_decimal(&mut message, entry_id);
        return Err(message);
    }
    Ok(())
}

// ---------------------------------------------------------------------------
// Polling the pasteboard and pasting an entry back
// ---------------------------------------------------------------------------

/// What the caller reports to a poll of the pasteboard: the change count it
/// read, what the pasteboard held, or how storing the capture went.
pub enum PollEvent {
    CountRead(Result<isize, String>),
    CaptureRead(Result<Option<ClipboardCapture>, String>),
    Stored(Result<i64, String>),
}

/// What a poll asks the caller to do next: read the pasteboard, store this
/// capture, or end the poll with this result (whether an entry was stored).
pub enum PollAction {
    ReadCapture,
    Store(ClipboardCapture),
    Finish(Result<bool, String>),
}

/// One step of a poll: a count already seen ends the poll without reading
/// or storing anything; a new count is recorded and the pasteboard is read;
/// a capture is stored; an empty pasteboard ends the poll; an error ends it
/// with that error.
pub open spec fn poll_transition(watcher: ClipboardWatcher, event: PollEvent) -> (
    ClipboardWatcher,
    PollAction,
) {
    match event {
        PollEvent::CountRead(Err(e)) => (watcher, PollAction::Finish(Err(e))),
        PollEvent::CountRead(Ok(count)) => if observed(watcher, count).1 {
            (observed(watcher, count).0, PollAction::ReadCapture)
        } else {
            (watcher, PollAction::Finish(Ok(false)))
        },
        PollEvent::CaptureRead(Err(e)) => (watcher, PollAction::Finish(Err(e))),
        PollEvent::CaptureRead(Ok(None)) => (watcher, PollAction::Finish(Ok(false))),
        PollEvent::CaptureRead(Ok(Some(capture))) => (watcher, PollAction::Store(capture)),
        PollEvent::Stored(Err(e)) => (watcher, PollAction::Finish(Err(e))),
        PollEvent::Stored(Ok(_)) => (watcher, PollAction::Finish(Ok(true))),
    }
}

/// A poll of the pasteboard, one step at a time: the caller starts with the
/// change count it read, does what each returned action asks and reports
/// the outcome, until the poll finishes.
pub fn poll_clipboard_change(watcher: &mut ClipboardWatcher, event: PollEvent) -> (action:
    PollAction)
    ensures
        (*final(watcher), action) == poll_transition(*old(watcher), event),
{
    match event {
        PollEvent::CountRead(counted) => match counted {
            Err(e) => PollAction::Finish(Err(e)),
            Ok(count) => {
                if watcher.observe_change_count(count) {
                    PollAction::ReadCapture
                } else {
                    PollAction::Finish(Ok(false))
                }
            },
        },
        PollEvent::CaptureRead(captured) => match captured {
            Err(e) => PollAction::Finish(Err(e)),
            Ok(None) => PollAction::Finish(Ok(false)),
            Ok(Some(capture)) => PollAction::Store(capture),
        },
        PollEvent::Stored(stored) => match stored {
            Err(e) => PollAction::Finish(Err(e)),
            Ok(_) => PollAction::Finish(Ok(true)),
        },
    }
}

/// A poll that reads the count last seen ends at once with no change: the
/// pasteboard is not read, nothing is stored and the watcher stays as it is.
pub proof fn lemma_unchanged_count_stores_nothing(watcher: ClipboardWatcher)
    ensures
        poll_transition(watcher, PollEvent::CountRead(Ok(watcher.last_change_count))) == (
            watcher,
            PollAction::Finish(Ok(false)),
        ),
{
}

/// A change is consumed by the first poll that sees it, whatever reading or
/// storing it then gives: a later poll that reads the same count stores
/// nothing.
pub proof fn lemma_change_consumed_once(
    watcher: ClipboardWatcher,
    count: isize,
    later: PollEvent,
)
    requires
        !(later is CountRead),
    ensures
        ({
            let after_count = poll_transition(watcher, PollEvent::CountRead(Ok(count))).0;
            let after_later = poll_transition(after_count, later).0;
            &&& after_count.last_change_count == count
            &&& after_later == after_count
            &&& poll_transition(after_later, PollEvent::CountRead(Ok(count))) == (
                after_later,
                PollAction::Finish(Ok(false)),
            )
        }),
{
}

/// After the program itself writes to the pasteboard (the watcher records
/// the count `written`, as `paste_entry` does), the poll that sees that count
/// stores nothing, while a poll that sees any other count reads the
/// pasteboard.
pub proof fn lemma_own_write_not_captured(written: isize, later: isize)
    ensures
        poll_transition(
            ClipboardWatcher { last_change_count: written },
            PollEvent::CountRead(Ok(written)),
        ) == (ClipboardWatcher { last_change_count: written }, PollAction::Finish(Ok(false))),
        later != written ==> poll_transition(
            ClipboardWatcher { last_change_count: written },
            PollEvent::CountRead(Ok(later)),
        ).1 is ReadCapture,
{
}

/// What the caller reports while pasting an entry back: the items it loaded,
/// how writing them to the pasteboard went (the change count of the write),
/// or how sending the paste went.
pub enum PasteEvent {
    Loaded(Result<Vec<ClipboardItem>, String>),
    Written(Result<isize, String>),
    Pasted(Result<(), String>),
}

/// What pasting an entry asks the caller to do next: write these items to
/// the pasteboard, send the paste, or end with this result.
pub enum PasteAction {
    Write(Vec<ClipboardItem>),
    Paste,
    Finish(Result<(), String>),
}

/// Pasting the stored entry `entry_id` back, one step at a time: the caller
/// starts with the items it loaded. A load error ends it; an entry without
/// items ends it with the missing-entry message, and nothing is written or
/// pasted; the items are written; a write error ends it; a successful write
/// has its change count recorded, so that it is not taken for a new copy,
/// and the paste is sent; the outcome of the paste ends it. The watcher
/// changes only when a write succeeded.
pub fn paste_entry(watcher: &mut ClipboardWatcher, entry_id: i64, event: PasteEvent) -> (action:
    PasteAction)
    ensures
        match event {
            PasteEvent::Loaded(Err(e)) => action == PasteAction::Finish(Err(e)) && *final(watcher)
                == *old(watcher),
            PasteEvent::Loaded(Ok(items)) => {
                &&& *final(watcher) == *old(watcher)
                &&& items.len() == 0 ==> (action matches PasteAction::Finish(Err(message))
                    && message@ == missing_entry_message(entry_id as int))
                &&& items.len() > 0 ==> action == PasteAction::Write(items)
            },
            PasteEvent::Written(Err(e)) => action == PasteAction::Finish(Err(e)) && *final(watcher)
                == *old(watcher),
            PasteEvent::Written(Ok(count)) => action == PasteAction::Paste
                && final(watcher).last_change_count == count,
            PasteEvent::Pasted(pasted) => action == PasteAction::Finish(pasted) && *final(watcher)
                == *old(watcher),
        },
{
    match event {
        PasteEvent::Loaded(loaded) => match loaded {
            Err(e) => PasteAction::Finish(Err(e)),
            Ok(items) => {
                let restorable = ensure_restorable(entry_id, &items);
                match restorable {
                    Err(message) => PasteAction::Finish(Err(message)),
                    Ok(()) => PasteAction::Write(items),
                }
            },
        },
        PasteEvent::Written(written) => match written {
            Err(e) => PasteAction::Finish(Err(e)),
            Ok(count) => {
                watcher.record_own_write(count);
                PasteAction::Paste
            },
        },
        PasteEvent::Pasted(pasted) => PasteAction::Finish(pasted),
    }
}

/// The directory that holds the history database for the home directory
/// `home`.
pub open spec fn history_directory_location(home: Seq<char>) -> Seq<char> {
    text::path_joined(
        text::path_joined(text::path_joined(home, "Library"@), "Application Support"@),
        "cococa-clip"@,
    )
}

/// The history database file inside `directory`.
pub open spec fn history_database_location(directory: Seq<char>) -> Seq<char> {
    text::path_joined(directory, "clipboard-history.sqlite3"@)
}

/// The directory that holds the history database.
pub fn history_directory(home: &str) -> (r: String)
    ensures
        r@ == history_directory_location(home@),
{
    let library = join_path(home, "Library");
    let support = join_path(library.as_str(), "Application Support");
    join_path(support.as_str(), "cococa-clip")
}

/// The history database file inside `directory`.
pub fn history_database_path(directory: &str) -> (r: String)
    ensures
        r@ == history_database_location(directory@),
{
    join_path(directory, "clipboard-history.sqlite3")
}

/// The title of a text capture fits the list: at most 42 characters of the
/// first line and an ellipsis; the subtitles of file and other captures
/// keep to 54 characters and an ellipsis.
pub proof fn lemma_summary_lengths(
    preview: Option<Seq<char>>,
    files: Seq<Seq<char>>,
    has_image: bool,
    leading_types: Seq<Seq<char>>,
    item_count: nat,
    representation_count: nat,
)
    ensures
        ({
            let s = capture_summary(
                preview,
                files,
                has_image,
                leading_types,
                item_count,
                representation_count,
            );
            &&& preview is Some ==> s.0.len() <= 43
            &&& (preview is None && (files.len() > 0 || !has_image)) ==> s.1.len() <= 55
        }),
{
}

/// A non-empty file URL never gives an empty file name.
pub proof fn lemma_file_name_not_empty(url: Seq<char>)
    requires
        url.len() > 0,
    ensures
        file_name_of_url(url).len() > 0,
{
}


/// A capture holds no empty item, and its items keep pasteboard order: each
/// item has a representation, and item positions rise strictly and lie among
/// the pasteboard's items.
pub proof fn lemma_captured_items_well_formed(items: Seq<Seq<TypeReadModel>>)
    ensures
        forall|k: int|
            0 <= k < captured_items(items).len() ==> {
                let item = #[trigger] captured_items(items)[k];
                &&& item.representations.len() > 0
                &&& 0 <= item.item_index < items.len()
            },
        forall|k1: int, k2: int|
            0 <= k1 < k2 < captured_items(items).len() ==> #[trigger] captured_items(
                items,
            )[k1].item_index < #[trigger] captured_items(items)[k2].item_index,
    decreases items.len(),
{
    if items.len() > 0 {
        let front = items.drop_last();
        lemma_captured_items_well_formed(front);
        let rest = captured_items(front);
        let all = captured_items(items);
        let reps = representations_of(items.last());
        if reps.len() > 0 {
            assert(all == rest.push(ItemModel { item_index: items.len() - 1, representations: reps }));
            assert forall|k: int| 0 <= k < all.len() implies {
                let item = #[trigger] all[k];
                &&& item.representations.len() > 0
                &&& 0 <= item.item_index < items.len()
            } by {
                if k < rest.len() {
                    assert(all[k] == rest[k]);
                }
            }
            assert forall|k1: int, k2: int| 0 <= k1 < k2 < all.len() implies #[trigger] all[k1].item_index
                < #[trigger] all[k2].item_index by {
                assert(all[k1] == rest[k1]);
                assert(rest[k1].item_index < front.len());
                if k2 < rest.len() {
                    assert(all[k2] == rest[k2]);
                    assert(rest[k1].item_index < rest[k2].item_index);
                }
            }
        } else {
            assert(all == rest);
        }
    }
}


/// The representation kept for a type, if it yields one.
pub open spec fn kept_representation(t: TypeReadModel) -> Option<RepresentationModel> {
    match representation_of(t) {
        Ok(Some(r)) => Some(r),
        _ => None,
    }
}

/// The representations that the types of an item yield, one for each type
/// that yields one, in the order of the types.
pub open spec fn kept_representations(types: Seq<TypeReadModel>) -> Seq<RepresentationModel> {
    types.filter_map(|t: TypeReadModel| kept_representation(t))
}

proof fn lemma_representations_in_type_order(types: Seq<TypeReadModel>)
    ensures
        representations_of(types) == kept_representations(types),
    decreases types.len(),
{
    if types.len() > 0 {
        lemma_representations_in_type_order(types.drop_last());
    }
}

proof fn lemma_captured_items_hold_their_representations(items: Seq<Seq<TypeReadModel>>)
    ensures
        forall|k: int|
            0 <= k < captured_items(items).len() ==> {
                let item = #[trigger] captured_items(items)[k];
                &&& 0 <= item.item_index < items.len()
                &&& item.representations == representations_of(items[item.item_index])
            },
    decreases items.len(),
{
    if items.len() > 0 {
        let front = items.drop_last();
        lemma_captured_items_hold_their_representations(front);
        let rest = captured_items(front);
        let all = captured_items(items);
        let reps = representations_of(items.last());
        if reps.len() > 0 {
            assert(all == rest.push(ItemModel { item_index: items.len() - 1, representations: reps }));
        } else {
            assert(all == rest);
        }
        assert forall|k: int| 0 <= k < all.len() implies {
            let item = #[trigger] all[k];
            &&& 0 <= item.item_index < items.len()
            &&& item.representations == representations_of(items[item.item_index])
        } by {
            if k < rest.len() {
                assert(all[k] == rest[k]);
                assert(front[rest[k].item_index] == items[rest[k].item_index]);
            }
        }
    }
}

/// A captured item keeps the representations of its pasteboard item in the
/// order of the item's types: one for each type that yields one, the k-th
/// coming from the k-th such type; every item of the capture stands for an
/// item of the pasteboard, in pasteboard order.
pub proof fn lemma_capture_keeps_pasteboard_order(items: Seq<Seq<TypeReadModel>>)
    ensures
        pasteboard_capture(items) matches Ok(Some(capture)) ==> {
            &&& forall|k: int|
                0 <= k < capture.items.len() ==> {
                    let item = #[trigger] capture.items[k];
                    &&& 0 <= item.item_index < items.len()
                    &&& item.representations == kept_representations(items[item.item_index])
                }
            &&& forall|k1: int, k2: int|
                0 <= k1 < k2 < capture.items.len() ==> #[trigger] capture.items[k1].item_index
                    < #[trigger] capture.items[k2].item_index
        },
{
    lemma_captured_items_hold_their_representations(items);
    lemma_captured_items_well_formed(items);
    let captured = captured_items(items);
    assert forall|k: int| 0 <= k < captured.len() implies #[trigger] captured[k].representations
        == kept_representations(items[captured[k].item_index]) by {
        lemma_representations_in_type_order(items[captured[k].item_index]);
    }
}

/// What is kept of one type: its data whenever it has data; otherwise its
/// string value, encoded as UTF-8; otherwise its property list. A failed
/// property list matters only for a type with neither data nor a string,
/// and a type with none of the three yields nothing. The kept
/// representation carries the type's identifier.
pub proof fn lemma_representation_choice(t: TypeReadModel)
    ensures
        t.data matches Some(d) ==> representation_of(t) == Ok::<_, Seq<char>>(
            Some(RepresentationModel { type_identifier: t.type_identifier, kind: RepresentationKind::Data, payload: d }),
        ),
        (t.data is None && t.text is Some) ==> representation_of(t) == Ok::<_, Seq<char>>(
            Some(
                RepresentationModel {
                    type_identifier: t.type_identifier,
                    kind: RepresentationKind::Text,
                    payload: vstd::utf8::encode_utf8(t.text->0),
                },
            ),
        ),
        t.data is None && t.text is None ==> match t.property_list {
            Ok(Some(p)) => representation_of(t) == Ok::<_, Seq<char>>(
                Some(
                    RepresentationModel {
                        type_identifier: t.type_identifier,
                        kind: RepresentationKind::PropertyList,
                        payload: p,
                    },
                ),
            ),
            Ok(None) => representation_of(t) == Ok::<Option<RepresentationModel>, Seq<char>>(None),
            Err(e) => representation_of(t) == Err::<Option<RepresentationModel>, Seq<char>>(e),
        },
{
}

/// `s` holds no line feed.
pub open spec fn single_line(s: Seq<char>) -> bool {
    forall|i: int| 0 <= i < s.len() ==> #[trigger] s[i] != '\n'
}

proof fn lemma_first_line_single(s: Seq<char>)
    ensures
        single_line(text::first_line(s)),
    decreases s.len(),
{
    if s.len() > 0 && s[0] != '\n' {
        lemma_first_line_single(s.drop_first());
        let rest = text::first_line(s.drop_first());
        assert forall|i: int| 0 <= i < text::first_line(s).len() implies #[trigger] text::first_line(
            s,
        )[i] != '\n' by {
            if i > 0 {
                assert(text::first_line(s)[i] == rest[i - 1]);
            }
        }
    }
}

proof fn lemma_trim_keeps_single(s: Seq<char>)
    requires
        single_line(s),
    ensures
        single_line(text::trim_start(s)),
        single_line(text::trim_end(s)),
    decreases s.len(),
{
    if s.len() > 0 {
        assert(single_line(s.drop_first())) by {
            assert forall|i: int| 0 <= i < s.drop_first().len() implies #[trigger] s.drop_first()[i]
                != '\n' by {
                assert(s.drop_first()[i] == s[i + 1]);
            }
        }
        assert(single_line(s.drop_last())) by {
            assert forall|i: int| 0 <= i < s.drop_last().len() implies #[trigger] s.drop_last()[i]
                != '\n' by {
                assert(s.drop_last()[i] == s[i]);
            }
        }
        lemma_trim_keeps_single(s.drop_first());
        lemma_trim_keeps_single(s.drop_last());
    }
}

/// The title of a text capture is a single line: no line feed survives the
/// normalisation and the cut.
pub proof fn lemma_text_title_single_line(text: Seq<char>, max: nat)
    ensures
        single_line(truncated(normalized(text), max)),
{
    lemma_first_line_single(text);
    lemma_trim_keeps_single(text::first_line(text));
    lemma_trim_keeps_single(text::trim_start(text::first_line(text)));
    let n = normalized(text);
    let t = truncated(n, max);
    if n.len() > max {
        assert forall|i: int| 0 <= i < t.len() implies #[trigger] t[i] != '\n' by {
            if i < max {
                assert(t[i] == n[i]);
            }
        }
    }
}

} // verus!
