//! Deriving the configuration of an index from the annotations on the
//! fields of a record type.
//!
//! A field is annotated with `index_config(..)` lists whose entries are
//! among `primary_key`, `distinct`, `searchable`, `displayed`, `filterable`
//! and `sortable`, separated by commas. `primary_key` and `distinct` may
//! each be given once per record, every entry once per field.

use vstd::prelude::*;
use vstd::string::StringExecFns;
use crate::text::same_text;
use crate::settings::Settings;
use crate::settings::SettingsView;

verus! {

/// One token between the parentheses of an annotation.
#[derive(Debug, Clone)]
pub enum AttrToken {
    /// A bare word.
    Ident(String),
    /// A punctuation character, and whether it stands alone rather than
    /// being joined to the next one.
    Punct { ch: char, alone: bool },
    /// Anything else: a literal or a bracketed group.
    Other,
}

/// Mathematical counterpart of [`AttrToken`].
pub enum AttrTokenView {
    Ident(Seq<char>),
    Punct { ch: char, alone: bool },
    Other,
}

impl View for AttrToken {
    type V = AttrTokenView;

    open spec fn view(&self) -> AttrTokenView {
        match self {
            AttrToken::Ident(name) => AttrTokenView::Ident(name@),
            AttrToken::Punct { ch, alone } => AttrTokenView::Punct { ch: *ch, alone: *alone },
            AttrToken::Other => AttrTokenView::Other,
        }
    }
}

/// The views of a run of tokens.
pub open spec fn tokens_view(tokens: Seq<AttrToken>) -> Seq<AttrTokenView> {
    Seq::new(tokens.len(), |i: int| tokens[i]@)
}

/// One annotation on a field.
#[derive(Debug, Clone)]
pub enum FieldAttr {
    /// `path(tokens)`, well formed.
    List { path: String, tokens: Vec<AttrToken> },
    /// An annotation that is not well formed: the tokens between its
    /// parentheses and the reader's complaint.
    Malformed { tokens: Vec<AttrToken>, complaint: String },
    /// A well-formed annotation of another shape.
    Other,
}

/// Mathematical counterpart of [`FieldAttr`].
pub enum FieldAttrView {
    List { path: Seq<char>, tokens: Seq<AttrTokenView> },
    Malformed { tokens: Seq<AttrTokenView>, complaint: Seq<char> },
    Other,
}

impl View for FieldAttr {
    type V = FieldAttrView;

    open spec fn view(&self) -> FieldAttrView {
        match self {
            FieldAttr::List { path, tokens } => FieldAttrView::List {
                path: path@,
                tokens: tokens_view(tokens@),
            },
            FieldAttr::Malformed { tokens, complaint } => FieldAttrView::Malformed {
                tokens: tokens_view(tokens@),
                complaint: complaint@,
            },
            FieldAttr::Other => FieldAttrView::Other,
        }
    }
}

/// The views of a run of annotations.
pub open spec fn attrs_view(attrs: Seq<FieldAttr>) -> Seq<FieldAttrView> {
    Seq::new(attrs.len(), |i: int| attrs[i]@)
}

/// Which of the once-per-record entries have been met.
#[derive(Debug, Clone, Copy, PartialEq, Eq, Structural)]
pub struct Seen {
    pub primary_key: bool,
    pub distinct: bool,
}

/// Whether a word is one of the six entries.
pub open spec fn is_valid_name(name: Seq<char>) -> bool {
    name == "displayed"@ || name == "searchable"@ || name == "filterable"@ || name == "sortable"@
        || name == "primary_key"@ || name == "distinct"@
}

/// Complaint about a once-per-record entry given again.
pub open spec fn already_exists(name: Seq<char>) -> Seq<char> {
    "`"@ + name + "` already exists"@
}

/// Complaint about an entry given twice on one field.
pub open spec fn already_on_field(name: Seq<char>) -> Seq<char> {
    "`"@ + name + "` already exists for this field"@
}

/// Complaint about a word that is no entry.
pub open spec fn unknown_property(name: Seq<char>) -> Seq<char> {
    "Property `"@ + name + "` does not exist for type `index_config`"@
}

/// What a punctuation token amounts to: only a comma that stands alone is
/// accepted.
pub open spec fn punct_checked(ch: char, alone: bool) -> Result<(), Seq<char>> {
    if ch == ',' && alone {
        Ok(())
    } else {
        Err("`,` expected"@)
    }
}

/// The entries of a field and the once-per-record marks after one more
/// token, or the complaint the token earns.
pub open spec fn after_token(token: AttrTokenView, names: Seq<Seq<char>>, seen: Seen) -> Result<
    (Seq<Seq<char>>, Seen),
    Seq<char>,
> {
    match token {
        AttrTokenView::Punct { ch, alone } => match punct_checked(ch, alone) {
            Ok(_) => Ok((names, seen)),
            Err(complaint) => Err(complaint),
        },
        AttrTokenView::Ident(name) => if name == "primary_key"@ && seen.primary_key {
            Err(already_exists(name))
        } else if name == "distinct"@ && seen.distinct {
            Err(already_exists(name))
        } else if names.contains(name) {
            Err(already_on_field(name))
        } else if !is_valid_name(name) {
            Err(unknown_property(name))
        } else {
            Ok(
                (
                    names.push(name),
                    Seen {
                        primary_key: seen.primary_key || name == "primary_key"@,
                        distinct: seen.distinct || name == "distinct"@,
                    },
                ),
            )
        },
        AttrTokenView::Other => Err("Invalid parsing"@),
    }
}

/// The entries and marks after a run of tokens, or the first complaint.
pub open spec fn after_tokens(tokens: Seq<AttrTokenView>, names: Seq<Seq<char>>, seen: Seen) -> Result<
    (Seq<Seq<char>>, Seen),
    Seq<char>,
>
    decreases tokens.len(),
{
    if tokens.len() == 0 {
        Ok((names, seen))
    } else {
        match after_token(tokens[0], names, seen) {
            Ok((names, seen)) => after_tokens(tokens.skip(1), names, seen),
            Err(complaint) => Err(complaint),
        }
    }
}

/// The complaint about the first unacceptable punctuation in a run of
/// tokens, if there is one.
pub open spec fn puncts_checked(tokens: Seq<AttrTokenView>) -> Result<(), Seq<char>>
    decreases tokens.len(),
{
    if tokens.len() == 0 {
        Ok(())
    } else {
        match tokens[0] {
            AttrTokenView::Punct { ch, alone } => match punct_checked(ch, alone) {
                Ok(_) => puncts_checked(tokens.skip(1)),
                Err(complaint) => Err(complaint),
            },
            _ => puncts_checked(tokens.skip(1)),
        }
    }
}

/// The entries and marks after one more annotation. Lists under another
/// path than `index_config` and annotations of other shapes change
/// nothing; a malformed annotation earns the complaint about its
/// punctuation or else the reader's.
pub open spec fn after_attr(attr: FieldAttrView, names: Seq<Seq<char>>, seen: Seen) -> Result<
    (Seq<Seq<char>>, Seen),
    Seq<char>,
> {
    match attr {
        FieldAttrView::List { path, tokens } => if path == "index_config"@ {
            after_tokens(tokens, names, seen)
        } else {
            Ok((names, seen))
        },
        FieldAttrView::Malformed { tokens, complaint } => match puncts_checked(tokens) {
            Ok(_) => Err(complaint),
            Err(first) => Err(first),
        },
        FieldAttrView::Other => Ok((names, seen)),
    }
}

/// The entries and marks after a run of annotations, or the first
/// complaint.
pub open spec fn after_attrs(attrs: Seq<FieldAttrView>, names: Seq<Seq<char>>, seen: Seen) -> Result<
    (Seq<Seq<char>>, Seen),
    Seq<char>,
>
    decreases attrs.len(),
{
    if attrs.len() == 0 {
        Ok((names, seen))
    } else {
        match after_attr(attrs[0], names, seen) {
            Ok((names, seen)) => after_attrs(attrs.skip(1), names, seen),
            Err(complaint) => Err(complaint),
        }
    }
}

/// Accepts a comma that stands alone and nothing else.
pub fn validate_punct(ch: char, alone: bool) -> (r: Result<(), String>)
    ensures
        match punct_checked(ch, alone) {
            Ok(_) => r is Ok,
            Err(complaint) => r matches Err(m) && m@ == complaint,
        },
{
    if ch == ',' && alone {
        return Ok(());
    }
    Err(String::from_str("`,` expected"))
}

/// A word between two fixed texts.
fn framed(before: &str, name: &str, after: &str) -> (r: String)
    ensures
        r@ == before@ + name@ + after@,
{
    let mut s = String::from_str(before);
    s.append(name);
    s.append(after);
    s
}

/// Whether a word is among the entries collected so far.
fn holds_name(names: &Vec<String>, name: &str) -> (r: bool)
    ensures
        r == names.deep_view().contains(name@),
{
    let mut i: usize = 0;
    while i < names.len()
        invariant
            i <= names.len(),
            forall|k: int| 0 <= k < i ==> names.deep_view()[k] != name@,
        decreases names.len() - i,
    {
        if same_text(names[i].as_str(), name) {
            assert(names.deep_view()[i as int] == name@);
            return true;
        }
        i += 1;
    }
    false
}

/// Whether a word is one of the six entries.
fn valid_name(name: &str) -> (r: bool)
    ensures
        r == is_valid_name(name@),
{
    same_text(name, "displayed") || same_text(name, "searchable") || same_text(name, "filterable")
        || same_text(name, "sortable") || same_text(name, "primary_key") || same_text(
        name,
        "distinct",
    )
}

/// Reads the tokens of one `index_config` list.
fn scan_tokens(tokens: &Vec<AttrToken>, names: &mut Vec<String>, seen: &mut Seen) -> (r: Result<
    (),
    String,
>)
    ensures
        match after_tokens(tokens_view(tokens@), old(names).deep_view(), *old(seen)) {
            Ok((found, marks)) => r is Ok && final(names).deep_view() == found && *final(seen)
                == marks,
            Err(complaint) => r matches Err(m) && m@ == complaint,
        },
{
    let ghost all = tokens_view(tokens@);
    let ghost names_before = names.deep_view();
    let ghost seen_before = *seen;
    let mut i: usize = 0;
    proof {
        assert(all.skip(0) =~= all);
    }
    while i < tokens.len()
        invariant
            i <= tokens.len(),
            all == tokens_view(tokens@),
            names_before == old(names).deep_view(),
            seen_before == *old(seen),
            after_tokens(all, names_before, seen_before) == after_tokens(
                all.skip(i as int),
                names.deep_view(),
                *seen,
            ),
        decreases tokens.len() - i,
    {
        proof {
            assert(all.skip(i as int).skip(1) =~= all.skip(i as int + 1));
            assert(all.len() == tokens@.len());
            assert(all.skip(i as int).len() > 0);
            assert(all.skip(i as int)[0] == tokens@[i as int]@);
        }
        match &tokens[i] {
            AttrToken::Punct { ch, alone } => {
                match validate_punct(*ch, *alone) {
                    Ok(_) => {},
                    Err(complaint) => {
                        return Err(complaint);
                    },
                }
            },
            AttrToken::Ident(name) => {
                let is_primary_key = same_text(name.as_str(), "primary_key");
                let is_distinct = same_text(name.as_str(), "distinct");
                if is_primary_key && seen.primary_key {
                    return Err(framed("`", name.as_str(), "` already exists"));
                }
                if is_distinct && seen.distinct {
                    return Err(framed("`", name.as_str(), "` already exists"));
                }
                if holds_name(names, name.as_str()) {
                    return Err(framed("`", name.as_str(), "` already exists for this field"));
                }
                if !valid_name(name.as_str()) {
                    return Err(
                        framed(
                            "Property `",
                            name.as_str(),
                            "` does not exist for type `index_config`",
                        ),
                    );
                }
                let ghost earlier = names.deep_view();
                names.push(name.clone());
                proof {
                    assert(names.deep_view() =~= earlier.push(name@));
                }
                if is_primary_key {
                    seen.primary_key = true;
                }
                if is_distinct {
                    seen.distinct = true;
                }
            },
            AttrToken::Other => {
                return Err(String::from_str("Invalid parsing"));
            },
        }
        i += 1;
    }
    Ok(())
}

/// Checks the punctuation of a malformed annotation.
fn scan_puncts(tokens: &Vec<AttrToken>) -> (r: Result<(), String>)
    ensures
        match puncts_checked(tokens_view(tokens@)) {
            Ok(_) => r is Ok,
            Err(complaint) => r matches Err(m) && m@ == complaint,
        },
{
    let ghost all = tokens_view(tokens@);
    let mut i: usize = 0;
    proof {
        assert(all.skip(0) =~= all);
    }
    while i < tokens.len()
        invariant
            i <= tokens.len(),
            all == tokens_view(tokens@),
            puncts_checked(all) == puncts_checked(all.skip(i as int)),
        decreases tokens.len() - i,
    {
        proof {
            assert(all.skip(i as int).skip(1) =~= all.skip(i as int + 1));
            assert(all.len() == tokens@.len());
            assert(all.skip(i as int).len() > 0);
            assert(all.skip(i as int)[0] == tokens@[i as int]@);
        }
        match &tokens[i] {
            AttrToken::Punct { ch, alone } => {
                match validate_punct(*ch, *alone) {
                    Ok(_) => {},
                    Err(complaint) => {
                        return Err(complaint);
                    },
                }
            },
            _ => {},
        }
        i += 1;
    }
    Ok(())
}

/// Collects the entries that the annotations of one field give it, in the
/// order in which they are written, and marks the once-per-record entries
/// among them.
pub fn extract_all_attr_values(attrs: &Vec<FieldAttr>, seen: &mut Seen) -> (r: Result<
    Vec<String>,
    String,
>)
    ensures
        match after_attrs(attrs_view(attrs@), Seq::empty(), *old(seen)) {
            Ok((found, marks)) => r matches Ok(names) && names.deep_view() == found && *final(seen)
                == marks,
            Err(complaint) => r matches Err(m) && m@ == complaint,
        },
{
    let ghost all = attrs_view(attrs@);
    let ghost seen_before = *seen;
    let mut names: Vec<String> = Vec::new();
    let mut i: usize = 0;
    proof {
        assert(all.skip(0) =~= all);
        assert(names.deep_view() =~= Seq::<Seq<char>>::empty());
    }
    while i < attrs.len()
        invariant
            i <= attrs.len(),
            all == attrs_view(attrs@),
            seen_before == *old(seen),
            after_attrs(all, Seq::empty(), seen_before) == after_attrs(
                all.skip(i as int),
                names.deep_view(),
                *seen,
            ),
        decreases attrs.len() - i,
    {
        proof {
            assert(all.skip(i as int).skip(1) =~= all.skip(i as int + 1));
            assert(all.len() == attrs@.len());
            assert(all.skip(i as int).len() > 0);
            assert(all.skip(i as int)[0] == attrs@[i as int]@);
        }
        match &attrs[i] {
            FieldAttr::List { path, tokens } => {
                if same_text(path.as_str(), "index_config") {
                    match scan_tokens(tokens, &mut names, seen) {
                        Ok(_) => {},
                        Err(complaint) => {
                            return Err(complaint);
                        },
                    }
                }
            },
            FieldAttr::Malformed { tokens, complaint } => {
                match scan_puncts(tokens) {
                    Ok(_) => {},
                    Err(first) => {
                        return Err(first);
                    },
                }
                return Err(complaint.clone());
            },
            FieldAttr::Other => {},
        }
        i += 1;
    }
    Ok(names)
}

/// A field of a record type: its name and its annotations.
#[derive(Debug, Clone)]
pub struct FieldDescription {
    pub name: String,
    pub attrs: Vec<FieldAttr>,
}

/// Mathematical counterpart of [`FieldDescription`].
pub struct FieldDescriptionView {
    pub name: Seq<char>,
    pub attrs: Seq<FieldAttrView>,
}

impl View for FieldDescription {
    type V = FieldDescriptionView;

    open spec fn view(&self) -> FieldDescriptionView {
        FieldDescriptionView { name: self.name@, attrs: attrs_view(self.attrs@) }
    }
}

/// The views of a run of fields.
pub open spec fn fields_view(fields: Seq<FieldDescription>) -> Seq<FieldDescriptionView> {
    Seq::new(fields.len(), |i: int| fields[i]@)
}

/// The fields of a record sorted by what their annotations say. The
/// primary key and the distinct attribute are empty until a field claims
/// them.
#[derive(Debug)]
pub struct AttributeLists {
    pub displayed: Vec<String>,
    pub searchable: Vec<String>,
    pub filterable: Vec<String>,
    pub sortable: Vec<String>,
    pub primary_key: String,
    pub distinct: String,
}

/// Mathematical counterpart of [`AttributeLists`].
pub struct AttributeListsView {
    pub displayed: Seq<Seq<char>>,
    pub searchable: Seq<Seq<char>>,
    pub filterable: Seq<Seq<char>>,
    pub sortable: Seq<Seq<char>>,
    pub primary_key: Seq<char>,
    pub distinct: Seq<char>,
}

impl View for AttributeLists {
    type V = AttributeListsView;

    open spec fn view(&self) -> AttributeListsView {
        AttributeListsView {
            displayed: self.displayed.deep_view(),
            searchable: self.searchable.deep_view(),
            filterable: self.filterable.deep_view(),
            sortable: self.sortable.deep_view(),
            primary_key: self.primary_key@,
            distinct: self.distinct@,
        }
    }
}

impl AttributeListsView {
    /// Lists without any field.
    pub open spec fn empty() -> AttributeListsView {
        AttributeListsView {
            displayed: Seq::empty(),
            searchable: Seq::empty(),
            filterable: Seq::empty(),
            sortable: Seq::empty(),
            primary_key: Seq::empty(),
            distinct: Seq::empty(),
        }
    }

    /// The lists after a field has been entered under one entry: appended
    /// to the list the entry names, or made primary key or distinct
    /// attribute in place of an earlier one.
    pub open spec fn placed(self, entry: Seq<char>, field: Seq<char>) -> AttributeListsView {
        if entry == "displayed"@ {
            AttributeListsView { displayed: self.displayed.push(field), ..self }
        } else if entry == "searchable"@ {
            AttributeListsView { searchable: self.searchable.push(field), ..self }
        } else if entry == "filterable"@ {
            AttributeListsView { filterable: self.filterable.push(field), ..self }
        } else if entry == "sortable"@ {
            AttributeListsView { sortable: self.sortable.push(field), ..self }
        } else if entry == "primary_key"@ {
            AttributeListsView { primary_key: field, ..self }
        } else if entry == "distinct"@ {
            AttributeListsView { distinct: field, ..self }
        } else {
            self
        }
    }

    /// The lists after a field has been entered under each of its entries.
    pub open spec fn placed_all(self, entries: Seq<Seq<char>>, field: Seq<char>) -> AttributeListsView
        decreases entries.len(),
    {
        if entries.len() == 0 {
            self
        } else {
            self.placed(entries[0], field).placed_all(entries.skip(1), field)
        }
    }

    /// The lists after a run of fields, or the first complaint about their
    /// annotations.
    pub open spec fn after_fields(self, fields: Seq<FieldDescriptionView>, seen: Seen) -> Result<
        AttributeListsView,
        Seq<char>,
    >
        decreases fields.len(),
    {
        if fields.len() == 0 {
            Ok(self)
        } else {
            match after_attrs(fields[0].attrs, Seq::empty(), seen) {
                Ok((entries, seen)) => self.placed_all(entries, fields[0].name).after_fields(
                    fields.skip(1),
                    seen,
                ),
                Err(complaint) => Err(complaint),
            }
        }
    }
}

/// Appends an owned copy of a text to a list.
fn push_text(list: &mut Vec<String>, text: &str)
    ensures
        final(list).deep_view() == old(list).deep_view().push(text@),
{
    list.push(String::from_str(text));
    assert(list.deep_view() =~= old(list).deep_view().push(text@));
}

impl AttributeLists {
    /// Lists without any field.
    pub fn new() -> (r: AttributeLists)
        ensures
            r@ == AttributeListsView::empty(),
    {
        let r = AttributeLists {
            displayed: Vec::new(),
            searchable: Vec::new(),
            filterable: Vec::new(),
            sortable: Vec::new(),
            primary_key: String::new(),
            distinct: String::new(),
        };
        assert(r.displayed.deep_view() =~= Seq::<Seq<char>>::empty());
        assert(r.searchable.deep_view() =~= Seq::<Seq<char>>::empty());
        assert(r.filterable.deep_view() =~= Seq::<Seq<char>>::empty());
        assert(r.sortable.deep_view() =~= Seq::<Seq<char>>::empty());
        r
    }

    /// Enters a field under one entry.
    pub fn place(&mut self, entry: &str, field: &str)
        ensures
            final(self)@ == old(self)@.placed(entry@, field@),
    {
        if same_text(entry, "displayed") {
            push_text(&mut self.displayed, field);
        } else if same_text(entry, "searchable") {
            push_text(&mut self.searchable, field);
        } else if same_text(entry, "filterable") {
            push_text(&mut self.filterable, field);
        } else if same_text(entry, "sortable") {
            push_text(&mut self.sortable, field);
        } else if same_text(entry, "primary_key") {
            self.primary_key = String::from_str(field);
        } else if same_text(entry, "distinct") {
            self.distinct = String::from_str(field);
        }
    }

    /// Enters a field under each of its entries.
    pub fn place_all(&mut self, entries: &Vec<String>, field: &str)
        ensures
            final(self)@ == old(self)@.placed_all(entries.deep_view(), field@),
    {
        let ghost all = entries.deep_view();
        let mut i: usize = 0;
        proof {
            assert(all.skip(0) =~= all);
        }
        while i < entries.len()
            invariant
                i <= entries.len(),
                all == entries.deep_view(),
                old(self)@.placed_all(all, field@) == self@.placed_all(all.skip(i as int), field@),
            decreases entries.len() - i,
        {
            proof {
                assert(all.skip(i as int).skip(1) =~= all.skip(i as int + 1));
                assert(all.skip(i as int).len() > 0);
                assert(all.skip(i as int)[0] == entries@[i as int]@);
            }
            self.place(entries[i].as_str(), field);
            i += 1;
        }
    }
}

/// Sorts the fields of a record by what their annotations say.
pub fn classify_fields(fields: &Vec<FieldDescription>) -> (r: Result<AttributeLists, String>)
    ensures
        match AttributeListsView::empty().after_fields(
            fields_view(fields@),
            Seen { primary_key: false, distinct: false },
        ) {
            Ok(lists) => r matches Ok(sorted) && sorted@ == lists,
            Err(complaint) => r matches Err(m) && m@ == complaint,
        },
{
    let ghost all = fields_view(fields@);
    let ghost start = Seen { primary_key: false, distinct: false };
    let mut lists = AttributeLists::new();
    let mut seen = Seen { primary_key: false, distinct: false };
    let mut i: usize = 0;
    proof {
        assert(all.skip(0) =~= all);
    }
    while i < fields.len()
        invariant
            i <= fields.len(),
            all == fields_view(fields@),
            start == (Seen { primary_key: false, distinct: false }),
            AttributeListsView::empty().after_fields(all, start) == lists@.after_fields(
                all.skip(i as int),
                seen,
            ),
        decreases fields.len() - i,
    {
        proof {
            assert(all.skip(i as int).skip(1) =~= all.skip(i as int + 1));
            assert(all.skip(i as int).len() > 0);
            assert(all.skip(i as int)[0] == fields@[i as int]@);
        }
        match extract_all_attr_values(&fields[i].attrs, &mut seen) {
            Ok(entries) => {
                lists.place_all(&entries, fields[i].name.as_str());
            },
            Err(complaint) => {
                return Err(complaint);
            },
        }
        i += 1;
    }
    Ok(lists)
}

/// What a record type's annotations amount to: the name of its index, its
/// primary key if a field claims it, and the settings of the index.
#[derive(Debug)]
pub struct IndexConfigDescription {
    pub index_name: String,
    pub primary_key: Option<String>,
    pub settings: Settings,
}

/// Mathematical counterpart of [`IndexConfigDescription`].
pub struct IndexConfigDescriptionView {
    pub index_name: Seq<char>,
    pub primary_key: Option<Seq<char>>,
    pub settings: SettingsView,
}

impl View for IndexConfigDescription {
    type V = IndexConfigDescriptionView;

    open spec fn view(&self) -> IndexConfigDescriptionView {
        IndexConfigDescriptionView {
            index_name: self.index_name@,
            primary_key: self.primary_key.deep_view(),
            settings: self.settings@,
        }
    }
}

/// A text, unless it is empty.
pub open spec fn unless_empty(text: Seq<char>) -> Option<Seq<char>> {
    if text.len() == 0 {
        None
    } else {
        Some(text)
    }
}

/// The settings that sorted fields stand for: the four lists are always
/// chosen, be they empty; the distinct attribute only when a field claims
/// it; nothing else.
pub open spec fn settings_for(lists: AttributeListsView) -> SettingsView {
    SettingsView {
        displayed_attributes: Some(lists.displayed),
        sortable_attributes: Some(lists.sortable),
        filterable_attributes: Some(lists.filterable),
        searchable_attributes: Some(lists.searchable),
        distinct_attribute: unless_empty(lists.distinct),
        ..SettingsView::undefined()
    }
}

/// A name in snake case, as `convert_case` derives it from a name in upper
/// camel case.
pub uninterp spec fn snake_case_of(name: Seq<char>) -> Seq<char>;

/// Splits a name into words where upper camel case puts boundaries and
/// joins them in snake case, by `Casing::from_case` with
/// `Case::UpperCamel` followed by `to_case` with `Case::Snake`. The claim
/// is only that equal names give equal results.
#[verifier::external_body]
fn snake_case(name: &str) -> (r: String)
    ensures
        r@ == snake_case_of(name@),
{
    convert_case::Casing::from_case(&name, convert_case::Case::UpperCamel).to_case(
        convert_case::Case::Snake,
    )
}

/// The configuration for an index name and sorted fields.
pub open spec fn description_for(index_name: Seq<char>, lists: AttributeListsView) -> IndexConfigDescriptionView {
    IndexConfigDescriptionView {
        index_name,
        primary_key: unless_empty(lists.primary_key),
        settings: settings_for(lists),
    }
}

/// Puts together the configuration for an index name and sorted fields.
pub fn describe(index_name: String, lists: AttributeLists) -> (r: IndexConfigDescription)
    ensures
        r@ == description_for(index_name@, lists@),
{
    let primary_key = if lists.primary_key.as_str().is_empty() {
        None
    } else {
        Some(lists.primary_key)
    };
    let distinct_attribute = if lists.distinct.as_str().is_empty() {
        None
    } else {
        Some(lists.distinct)
    };
    let settings = Settings {
        displayed_attributes: Some(lists.displayed),
        sortable_attributes: Some(lists.sortable),
        filterable_attributes: Some(lists.filterable),
        searchable_attributes: Some(lists.searchable),
        distinct_attribute,
        synonyms: None,
        stop_words: None,
        ranking_rules: None,
        pagination: None,
        faceting: None,
    };
    IndexConfigDescription { index_name, primary_key, settings }
}

/// Derives the configuration of the index for a record type from the name
/// of the type and the annotations on its fields. The index is named after
/// the type, in snake case.
pub fn get_index_config_implementation(struct_ident: &str, fields: &Vec<FieldDescription>) -> (r:
    Result<IndexConfigDescription, String>)
    ensures
        match AttributeListsView::empty().after_fields(
            fields_view(fields@),
            Seen { primary_key: false, distinct: false },
        ) {
            Ok(lists) => r matches Ok(description) && description@ == description_for(
                snake_case_of(struct_ident@),
                lists,
            ),
            Err(complaint) => r matches Err(m) && m@ == complaint,
        },
{
    let index_name = snake_case(struct_ident);
    match classify_fields(fields) {
        Ok(lists) => Ok(describe(index_name, lists)),
        Err(complaint) => Err(complaint),
    }
}

} // verus!
