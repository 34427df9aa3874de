//! The items of a drag data store and the list that holds them.
use vstd::prelude::*;
use crate::navigation::DomError;

verus! {

/// `c` with an ASCII upper-case letter mapped to its lower-case letter.
pub open spec fn ascii_lower_char(c: char) -> char {
    if 'A' <= c && c <= 'Z' {
        ((c as u32) + 32) as char
    } else {
        c
    }
}

/// `s` with each ASCII upper-case letter mapped to its lower-case letter.
pub open spec fn ascii_lower(s: Seq<char>) -> Seq<char> {
    s.map_values(|c: char| ascii_lower_char(c))
}

/// Relies on `str::to_ascii_lowercase`: ASCII upper-case letters become lower-case, every
/// other character stays.
#[verifier::external_body]
fn to_ascii_lowercase(s: &str) -> (r: String)
    ensures
        r@ == ascii_lower(s@),
{
    s.to_ascii_lowercase()
}


/// A file as a drag data store holds it: its name and its MIME type.
pub struct File {
    pub name: String,
    pub type_string: String,
}

impl File {
    pub fn new(name: String, type_string: String) -> (r: File)
        ensures
            r.name == name,
            r.type_string == type_string,
    {
        File { name, type_string }
    }

    /// A copy equal to `self`.
    pub fn duplicate(&self) -> (r: File)
        ensures
            r == *self,
    {
        File { name: self.name.clone(), type_string: self.type_string.clone() }
    }
}

/// The data of an item: a file or a string.
pub enum DataTransferItemValue {
    File(File),
    String(String),
}

impl DataTransferItemValue {
    /// A copy equal to `self`.
    pub fn duplicate(&self) -> (r: DataTransferItemValue)
        ensures
            r == *self,
    {
        match self {
            DataTransferItemValue::File(f) => DataTransferItemValue::File(f.duplicate()),
            DataTransferItemValue::String(s) => DataTransferItemValue::String(s.clone()),
        }
    }
}

/// One item of a drag data store: its kind ("string" or "file"), its type and its data.
pub struct DataTransferItem {
    pub kind: String,
    pub type_: String,
    pub value: DataTransferItemValue,
}

impl DataTransferItem {
    fn new_inherited(kind: String, type_: String, value: DataTransferItemValue) -> (r:
        DataTransferItem)
        ensures
            r.kind == kind,
            r.type_ == type_,
            r.value == value,
    {
        DataTransferItem { kind, type_, value }
    }

    pub fn new(kind: String, type_: String, value: DataTransferItemValue) -> (r: DataTransferItem)
        ensures
            r.kind == kind,
            r.type_ == type_,
            r.value == value,
    {
        DataTransferItem::new_inherited(kind, type_, value)
    }

    pub fn kind(&self) -> (r: String)
        ensures
            r == self.kind,
    {
        self.kind.clone()
    }

    pub fn type_(&self) -> (r: String)
        ensures
            r == self.type_,
    {
        self.type_.clone()
    }

    pub fn value(&self) -> (r: DataTransferItemValue)
        ensures
            r == self.value,
    {
        self.value.duplicate()
    }

    /// The item's file, where it holds one.
    pub fn get_as_file(&self) -> (r: Option<File>)
        ensures
            r == (match self.value {
                DataTransferItemValue::File(f) => Some(f),
                DataTransferItemValue::String(_) => None,
            }),
    {
        match &self.value {
            DataTransferItemValue::File(f) => Some(f.duplicate()),
            DataTransferItemValue::String(_) => None,
        }
    }

    /// The string that a string item hands to a `getAsString` callback.
    pub fn get_as_string(&self) -> (r: Option<String>)
        ensures
            r == (match self.value {
                DataTransferItemValue::String(s) => Some(s),
                DataTransferItemValue::File(_) => None,
            }),
    {
        match &self.value {
            DataTransferItemValue::String(s) => Some(s.clone()),
            DataTransferItemValue::File(_) => None,
        }
    }

    /// A copy equal to `self`.
    pub fn duplicate(&self) -> (r: DataTransferItem)
        ensures
            r == *self,
    {
        DataTransferItem {
            kind: self.kind.clone(),
            type_: self.type_.clone(),
            value: self.value.duplicate(),
        }
    }
}

/// What a drag data store lets scripts do with it.
#[derive(Clone, Copy, Debug, PartialEq, Eq, Structural)]
pub enum DataTransferMode {
    ReadOnly,
    ReadWrite,
    Protected,
}

/// The types of the items whose kind, in ASCII lower case, is "string", in list order.
pub open spec fn string_types(items: Seq<DataTransferItem>) -> Seq<Seq<char>>
    decreases items.len(),
{
    if items.len() == 0 {
        Seq::empty()
    } else {
        let prev = string_types(items.drop_last());
        if ascii_lower(items.last().kind@) == "string"@ {
            prev.push(items.last().type_@)
        } else {
            prev
        }
    }
}

/// Some item holds a file.
pub open spec fn holds_file(items: Seq<DataTransferItem>) -> bool {
    exists|i: int| 0 <= i < items.len() && (#[trigger] items[i].value) is File
}

/// The types list of `items`: the types of the string items, then "Files" where some item
/// holds a file.
pub open spec fn types_of(items: Seq<DataTransferItem>) -> Seq<Seq<char>> {
    if holds_file(items) {
        string_types(items).push("Files"@)
    } else {
        string_types(items)
    }
}

/// The items of `items` whose kind is not "string", in order.
pub open spec fn without_strings(items: Seq<DataTransferItem>) -> Seq<DataTransferItem>
    decreases items.len(),
{
    if items.len() == 0 {
        Seq::empty()
    } else {
        let prev = without_strings(items.drop_last());
        if items.last().kind@ != "string"@ {
            prev.push(items.last())
        } else {
            prev
        }
    }
}

/// The items of `items` that are files or whose type is not `format`, in order.
pub open spec fn without_format(items: Seq<DataTransferItem>, format: Seq<char>) -> Seq<DataTransferItem>
    decreases items.len(),
{
    if items.len() == 0 {
        Seq::empty()
    } else {
        let prev = without_format(items.drop_last(), format);
        if items.last().kind@ == "file"@ || items.last().type_@ != format {
            prev.push(items.last())
        } else {
            prev
        }
    }
}

/// The files that `items` hold, in order.
pub open spec fn files_of(items: Seq<DataTransferItem>) -> Seq<File>
    decreases items.len(),
{
    if items.len() == 0 {
        Seq::empty()
    } else {
        let prev = files_of(items.drop_last());
        match items.last().value {
            DataTransferItemValue::File(f) => prev.push(f),
            DataTransferItemValue::String(_) => prev,
        }
    }
}

/// The views of a list of strings.
pub open spec fn views(v: Seq<String>) -> Seq<Seq<char>> {
    v.map_values(|s: String| s@)
}

/// The item list of a drag data store, with its cached types list.
pub struct DataTransferItemList {
    pub list: Vec<DataTransferItem>,
    pub types: Vec<String>,
    pub mode: DataTransferMode,
    /// Changes whenever the types list is regenerated.
    pub cache_key: u32,
}

impl DataTransferItemList {
    fn new_inherited(list: Vec<DataTransferItem>) -> (r: DataTransferItemList)
        ensures
            r.list == list,
            r.types@.len() == 0,
            r.mode == DataTransferMode::ReadWrite,
            r.cache_key == 0,
    {
        DataTransferItemList {
            list,
            types: Vec::new(),
            mode: DataTransferMode::ReadWrite,
            cache_key: 0,
        }
    }

    pub fn new(list: Vec<DataTransferItem>) -> (r: DataTransferItemList)
        ensures
            r.list == list,
            r.types@.len() == 0,
            r.mode == DataTransferMode::ReadWrite,
            r.cache_key == 0,
    {
        DataTransferItemList::new_inherited(list)
    }

    /// Rebuilds the types list from the items, and takes `cache_key`, a fresh random number,
    /// as the new cache key.
    fn regenerate_types(&mut self, cache_key: u32)
        ensures
            views(final(self).types@) == types_of(final(self).list@),
            final(self).list == old(self).list,
            final(self).mode == old(self).mode,
            final(self).cache_key == cache_key,
    {
        let mut types: Vec<String> = Vec::new();
        let mut any_file = false;
        let mut i: usize = 0;
        while i < self.list.len()
            invariant
                i <= self.list@.len(),
                views(types@) == string_types(self.list@.subrange(0, i as int)),
                any_file == holds_file(self.list@.subrange(0, i as int)),
            decreases self.list@.len() - i,
        {
            let ghost prefix = self.list@.subrange(0, i as int);
            let ghost next = self.list@.subrange(0, i + 1);
            assert(next.drop_last() == prefix);
            assert(next.last() == self.list@[i as int]);
            let kind = to_ascii_lowercase(self.list[i].kind.as_str());
            let string = "string".to_owned();
            if kind == string {
                types.push(self.list[i].type_.clone());
            }
            assert(views(types@) =~= string_types(next));
            match &self.list[i].value {
                DataTransferItemValue::File(_) => {
                    any_file = true;
                    assert(next[i as int].value is File);
                },
                DataTransferItemValue::String(_) => {
                    assert forall|j: int| 0 <= j < next.len() && (#[trigger] next[j].value) is File implies j < i && prefix[j].value is File by {
                        assert(prefix[j] == next[j]);
                    }
                },
            }
            i += 1;
        }
        assert(self.list@.subrange(0, self.list@.len() as int) == self.list@);
        if any_file {
            types.push("Files".to_owned());
            assert(views(types@) =~= types_of(self.list@));
        }
        self.types = types;
        self.cache_key = cache_key;
    }

    /// Some item's type equals `t`.
    pub open spec fn has_type(&self, t: Seq<char>) -> bool {
        exists|i: int| 0 <= i < self.list@.len() && #[trigger] self.list@[i].type_@ == t
    }

    fn find_type(&self, t: &String) -> (r: bool)
        ensures
            r == self.has_type(t@),
    {
        let mut i: usize = 0;
        while i < self.list.len()
            invariant
                i <= self.list@.len(),
                forall|j: int| 0 <= j < i ==> #[trigger] self.list@[j].type_@ != t@,
            decreases self.list@.len() - i,
        {
            if self.list[i].type_ == *t {
                assert(self.list@[i as int].type_@ == t@);
                return true;
            }
            i += 1;
        }
        false
    }

    /// Adds a string item of type `format`. Fails with a not-supported error where an item's
    /// type already equals `format` in ASCII lower case.
    pub fn add_string(&mut self, data: String, format: String, cache_key: u32) -> (r: Result<
        Option<DataTransferItem>,
        DomError,
    >)
        ensures
            old(self).has_type(ascii_lower(format@)) ==> r == Err::<Option<DataTransferItem>, DomError>(DomError::NotSupported)
                && *final(self) == *old(self),
            !old(self).has_type(ascii_lower(format@)) ==> {
                let item = DataTransferItem {
                    kind: final(self).list@.last().kind,
                    type_: format,
                    value: DataTransferItemValue::String(data),
                };
                &&& item.kind@ == "string"@
                &&& final(self).list@ == old(self).list@.push(item)
                &&& r == Ok::<Option<DataTransferItem>, DomError>(Some(item))
                &&& views(final(self).types@) == types_of(final(self).list@)
                &&& final(self).mode == old(self).mode
                &&& final(self).cache_key == cache_key
            },
    {
        let lower = to_ascii_lowercase(format.as_str());
        if self.find_type(&lower) {
            return Err(DomError::NotSupported);
        }
        let item = DataTransferItem::new("string".to_owned(), format, DataTransferItemValue::String(data));
        Ok(Some(self.add(item, cache_key)))
    }

    fn add(&mut self, item: DataTransferItem, cache_key: u32) -> (r: DataTransferItem)
        ensures
            r == item,
            final(self).list@ == old(self).list@.push(item),
            views(final(self).types@) == types_of(final(self).list@),
            final(self).mode == old(self).mode,
            final(self).cache_key == cache_key,
    {
        let copy = item.duplicate();
        self.list.push(item);
        self.regenerate_types(cache_key);
        copy
    }

    /// Removes every item whose kind is "string".
    pub fn remove_string_entries(&mut self, cache_key: u32)
        ensures
            old(self).list@.len() == 0 ==> *final(self) == *old(self),
            old(self).list@.len() > 0 ==> {
                &&& final(self).list@ == without_strings(old(self).list@)
                &&& views(final(self).types@) == types_of(final(self).list@)
                &&& final(self).mode == old(self).mode
                &&& final(self).cache_key == cache_key
            },
    {
        if self.list.len() == 0 {
            return;
        }
        let string = "string".to_owned();
        let mut out: Vec<DataTransferItem> = Vec::new();
        let mut i: usize = 0;
        while i < self.list.len()
            invariant
                i <= self.list@.len(),
                *self == *old(self),
                string@ == "string"@,
                out@ == without_strings(self.list@.subrange(0, i as int)),
            decreases self.list@.len() - i,
        {
            let ghost next = self.list@.subrange(0, i + 1);
            assert(next.drop_last() == self.list@.subrange(0, i as int));
            assert(next.last() == self.list@[i as int]);
            if self.list[i].kind != string {
                out.push(self.list[i].duplicate());
            }
            assert(out@ =~= without_strings(next));
            i += 1;
        }
        assert(self.list@.subrange(0, self.list@.len() as int) == self.list@);
        self.list = out;
        self.regenerate_types(cache_key);
    }

    /// Removes every item whose type is `format`, but for file items. Changes nothing where
    /// no item has that type.
    pub fn remove_string_entries_by_format(&mut self, format: &String, cache_key: u32)
        ensures
            !old(self).has_type(format@) ==> *final(self) == *old(self),
            old(self).has_type(format@) ==> {
                &&& final(self).list@ == without_format(old(self).list@, format@)
                &&& views(final(self).types@) == types_of(final(self).list@)
                &&& final(self).mode == old(self).mode
                &&& final(self).cache_key == cache_key
            },
    {
        if self.list.len() == 0 {
            return;
        }
        if !self.find_type(format) {
            return;
        }
        let file = "file".to_owned();
        let mut out: Vec<DataTransferItem> = Vec::new();
        let mut i: usize = 0;
        while i < self.list.len()
            invariant
                i <= self.list@.len(),
                *self == *old(self),
                file@ == "file"@,
                out@ == without_format(self.list@.subrange(0, i as int), format@),
            decreases self.list@.len() - i,
        {
            let ghost next = self.list@.subrange(0, i + 1);
            assert(next.drop_last() == self.list@.subrange(0, i as int));
            assert(next.last() == self.list@[i as int]);
            if self.list[i].kind == file || self.list[i].type_ != *format {
                out.push(self.list[i].duplicate());
            }
            assert(out@ =~= without_format(next, format@));
            i += 1;
        }
        assert(self.list@.subrange(0, self.list@.len() as int) == self.list@);
        self.list = out;
        self.regenerate_types(cache_key);
    }

    /// The files that the items hold, in list order.
    pub fn get_files(&self) -> (r: Vec<File>)
        ensures
            r@ == files_of(self.list@),
    {
        let mut out: Vec<File> = Vec::new();
        let mut i: usize = 0;
        while i < self.list.len()
            invariant
                i <= self.list@.len(),
                out@ == files_of(self.list@.subrange(0, i as int)),
            decreases self.list@.len() - i,
        {
            let ghost next = self.list@.subrange(0, i + 1);
            assert(next.drop_last() == self.list@.subrange(0, i as int));
            assert(next.last() == self.list@[i as int]);
            match self.list[i].get_as_file() {
                Some(f) => out.push(f),
                None => {},
            }
            i += 1;
        }
        assert(self.list@.subrange(0, self.list@.len() as int) == self.list@);
        out
    }

    /// The cached types list.
    pub fn types(&self) -> (r: Vec<String>)
        ensures
            r@ == self.types@,
    {
        let mut out: Vec<String> = Vec::new();
        let mut i: usize = 0;
        while i < self.types.len()
            invariant
                i <= self.types@.len(),
                out@ == self.types@.subrange(0, i as int),
            decreases self.types@.len() - i,
        {
            out.push(self.types[i].clone());
            assert(out@ =~= self.types@.subrange(0, i + 1));
            i += 1;
        }
        assert(out@ =~= self.types@);
        out
    }

    pub fn cache_key(&self) -> (r: u32)
        ensures
            r == self.cache_key,
    {
        self.cache_key
    }

    pub fn get_mode(&self) -> (r: &DataTransferMode)
        ensures
            *r == self.mode,
    {
        &self.mode
    }

    /// Adds a string item of type `type_`, as `add_string` does, where the list is read/write;
    /// changes nothing and returns no item otherwise.
    pub fn add_data(&mut self, data: String, type_: String, cache_key: u32) -> (r: Result<
        Option<DataTransferItem>,
        DomError,
    >)
        ensures
            old(self).mode != DataTransferMode::ReadWrite ==> r == Ok::<Option<DataTransferItem>, DomError>(None)
                && *final(self) == *old(self),
            old(self).mode == DataTransferMode::ReadWrite && old(self).has_type(ascii_lower(type_@))
                ==> r == Err::<Option<DataTransferItem>, DomError>(DomError::NotSupported) && *final(self) == *old(self),
            old(self).mode == DataTransferMode::ReadWrite && !old(self).has_type(ascii_lower(type_@))
                ==> final(self).list@.len() == old(self).list@.len() + 1 && r is Ok
                && final(self).list@.last().type_ == type_,
    {
        if self.mode != DataTransferMode::ReadWrite {
            return Ok(None);
        }
        self.add_string(data, type_, cache_key)
    }

    /// Adds a file item where the list is read/write; changes nothing and returns no item
    /// otherwise.
    pub fn add_file(&mut self, file: File, cache_key: u32) -> (r: Option<DataTransferItem>)
        ensures
            old(self).mode != DataTransferMode::ReadWrite ==> r is None && *final(self) == *old(self),
            old(self).mode == DataTransferMode::ReadWrite ==> {
                &&& final(self).list@.len() == old(self).list@.len() + 1
                &&& final(self).list@.drop_last() == old(self).list@
                &&& final(self).list@.last().kind@ == "file"@
                &&& final(self).list@.last().type_ == file.type_string
                &&& final(self).list@.last().value == DataTransferItemValue::File(file)
                &&& r == Some(final(self).list@.last())
                &&& views(final(self).types@) == types_of(final(self).list@)
                &&& final(self).cache_key == cache_key
            },
    {
        if self.mode != DataTransferMode::ReadWrite {
            return None;
        }
        let type_ = file.type_string.clone();
        let item = DataTransferItem::new("file".to_owned(), type_, DataTransferItemValue::File(file));
        let added = self.add(item, cache_key);
        assert(self.list@.drop_last() =~= old(self).list@);
        Some(added)
    }

    /// Removes the item at `index`, where there is one. Fails with an invalid-state error
    /// where the list is not read/write.
    pub fn remove(&mut self, index: u32, cache_key: u32) -> (r: Result<(), DomError>)
        ensures
            old(self).mode != DataTransferMode::ReadWrite ==> r == Err::<(), DomError>(DomError::InvalidState)
                && *final(self) == *old(self),
            old(self).mode == DataTransferMode::ReadWrite && index >= old(self).list@.len() ==> r
                is Ok && *final(self) == *old(self),
            old(self).mode == DataTransferMode::ReadWrite && index < old(self).list@.len() ==> {
                &&& r is Ok
                &&& final(self).list@ == old(self).list@.remove(index as int)
                &&& views(final(self).types@) == types_of(final(self).list@)
                &&& final(self).cache_key == cache_key
            },
    {
        if self.mode != DataTransferMode::ReadWrite {
            return Err(DomError::InvalidState);
        }
        let i = index as usize;
        if i < self.list.len() {
            self.list.remove(i);
            self.regenerate_types(cache_key);
        }
        Ok(())
    }

    /// Removes every item, where the list is read/write and not empty.
    pub fn clear(&mut self, cache_key: u32)
        ensures
            old(self).mode != DataTransferMode::ReadWrite || old(self).list@.len() == 0 ==> *final(self)
                == *old(self),
            old(self).mode == DataTransferMode::ReadWrite && old(self).list@.len() > 0 ==> {
                &&& final(self).list@.len() == 0
                &&& final(self).types@.len() == 0
                &&& final(self).cache_key == cache_key
            },
    {
        if self.mode == DataTransferMode::ReadWrite {
            if self.list.len() > 0 {
                self.list.clear();
                self.regenerate_types(cache_key);
                assert(self.list@ =~= Seq::<DataTransferItem>::empty());
                assert(string_types(self.list@) =~= Seq::<Seq<char>>::empty());
                assert(!holds_file(self.list@));
            }
        }
    }

    /// The number of items, or 0 where it does not fit in 32 bits.
    pub fn length(&self) -> (r: u32)
        ensures
            self.list@.len() <= u32::MAX ==> r == self.list@.len(),
            self.list@.len() > u32::MAX ==> r == 0,
    {
        let n = self.list.len();
        if n <= u32::MAX as usize {
            n as u32
        } else {
            0
        }
    }

    /// The item at `index`, if there is one.
    pub fn indexed_getter(&self, index: u32) -> (r: Option<DataTransferItem>)
        ensures
            index < self.list@.len() ==> r == Some(self.list@[index as int]),
            index >= self.list@.len() ==> r is None,
    {
        let i = index as usize;
        if i < self.list.len() {
            Some(self.list[i].duplicate())
        } else {
            None
        }
    }
}


/// The format that `format` names: in ASCII lower case, with "text" read as "text/plain" and
/// "url" as "text/uri-list".
pub open spec fn parsed_format(format: Seq<char>) -> Seq<char> {
    let l = ascii_lower(format);
    if l == "text"@ {
        "text/plain"@
    } else if l == "url"@ {
        "text/uri-list"@
    } else {
        l
    }
}

/// Reads `format` as a drag data format.
pub fn parse_format(format: &str) -> (r: String)
    ensures
        r@ == parsed_format(format@),
{
    let lower = to_ascii_lowercase(format);
    let text = "text".to_owned();
    let url = "url".to_owned();
    if lower == text {
        "text/plain".to_owned()
    } else if lower == url {
        "text/uri-list".to_owned()
    } else {
        lower
    }
}

/// Item `i` holds string data of type `format`.
pub open spec fn string_item_of(items: Seq<DataTransferItem>, i: int, format: Seq<char>) -> bool {
    &&& items[i].value is String
    &&& items[i].type_@ == format
}

/// What a drop does with the dragged data.
#[derive(Clone, Copy, Debug, PartialEq, Eq, Structural)]
pub enum DropEffect {
    NoEffect,
    Copy,
    Link,
    Move,
}

/// Which drop effects the drag source allows.
#[derive(Clone, Copy, Debug, PartialEq, Eq, Structural)]
pub enum EffectAllowed {
    NoEffect,
    Copy,
    CopyLink,
    CopyMove,
    Link,
    LinkMove,
    Move,
    All,
    Uninitialized,
}

/// The image shown while dragging: an image element, by id, and the offset of the pointer in
/// it.
#[derive(Clone, Copy, Debug, PartialEq, Eq, Structural)]
pub struct DataTransferBitmap {
    pub image: u64,
    pub image_x: i32,
    pub image_y: i32,
}

/// The data of a drag and drop operation.
pub struct DataTransfer {
    pub bitmap_image: Option<DataTransferBitmap>,
    pub drop_effect: DropEffect,
    pub effect_allowed: EffectAllowed,
    pub item_list: DataTransferItemList,
    /// The cache key of the item list when the types were last read.
    pub cache_key: u32,
}

impl DataTransfer {
    pub fn new_inherited(item_list: DataTransferItemList) -> (r: DataTransfer)
        ensures
            r.drop_effect == DropEffect::NoEffect,
            r.effect_allowed == EffectAllowed::NoEffect,
            r.item_list == item_list,
            r.cache_key == 0,
            r.bitmap_image is None,
    {
        DataTransfer {
            bitmap_image: None,
            drop_effect: DropEffect::NoEffect,
            effect_allowed: EffectAllowed::NoEffect,
            item_list,
            cache_key: 0,
        }
    }

    pub fn set_drop_effect(&mut self, value: DropEffect)
        ensures
            final(self).drop_effect == (if old(self).item_list.mode == DataTransferMode::ReadWrite {
                value
            } else {
                old(self).drop_effect
            }),
            final(self).effect_allowed == old(self).effect_allowed,
            final(self).item_list == old(self).item_list,
            final(self).cache_key == old(self).cache_key,
    {
        if self.item_list.mode == DataTransferMode::ReadWrite {
            self.drop_effect = value;
        }
    }

    pub fn set_effect_allowed(&mut self, value: EffectAllowed)
        ensures
            final(self).effect_allowed == (if old(self).item_list.mode == DataTransferMode::ReadWrite {
                value
            } else {
                old(self).effect_allowed
            }),
            final(self).drop_effect == old(self).drop_effect,
            final(self).item_list == old(self).item_list,
            final(self).cache_key == old(self).cache_key,
    {
        if self.item_list.mode == DataTransferMode::ReadWrite {
            self.effect_allowed = value;
        }
    }

    /// The data of the first string item of the given format; empty where there is none or
    /// the store is protected.
    pub fn get_data(&self, format: &str) -> (r: String)
        ensures
            self.item_list.mode == DataTransferMode::Protected ==> r@.len() == 0,
            self.item_list.mode != DataTransferMode::Protected ==> {
                let items = self.item_list.list@;
                let f = parsed_format(format@);
                if exists|i: int| 0 <= i < items.len() && #[trigger] string_item_of(items, i, f) {
                    exists|i: int|
                        0 <= i < items.len() && #[trigger] string_item_of(items, i, f) && items[i].value
                            == DataTransferItemValue::String(r) && forall|j: int|
                            0 <= j < i ==> !#[trigger] string_item_of(items, j, f)
                } else {
                    r@.len() == 0
                }
            },
    {
        if self.item_list.mode == DataTransferMode::Protected {
            return String::new();
        }
        let f = parse_format(format);
        let mut i: usize = 0;
        while i < self.item_list.list.len()
            invariant
                i <= self.item_list.list@.len(),
                f@ == parsed_format(format@),
                self.item_list.mode != DataTransferMode::Protected,
                forall|j: int| 0 <= j < i ==> !#[trigger] string_item_of(self.item_list.list@, j, f@),
            decreases self.item_list.list@.len() - i,
        {
            match &self.item_list.list[i].value {
                DataTransferItemValue::String(v) => {
                    if self.item_list.list[i].type_ == f {
                        assert(string_item_of(self.item_list.list@, i as int, f@));
                        return v.clone();
                    }
                },
                DataTransferItemValue::File(_) => {},
            }
            i += 1;
        }
        String::new()
    }

    /// Replaces the string data of the given format with `data`, where the store is read/write.
    pub fn set_data(&mut self, format: &str, data: String, cache_key: u32)
        ensures
            old(self).item_list.mode != DataTransferMode::ReadWrite ==> *final(self) == *old(self),
            old(self).item_list.mode == DataTransferMode::ReadWrite ==> {
                let cleared = if old(self).item_list.has_type(parsed_format(format@)) {
                    without_format(old(self).item_list.list@, parsed_format(format@))
                } else {
                    old(self).item_list.list@
                };
                &&& final(self).item_list.list@.len() >= cleared.len()
                &&& final(self).item_list.list@.subrange(0, cleared.len() as int) == cleared
                &&& final(self).item_list.list@ == cleared || {
                    &&& final(self).item_list.list@.len() == cleared.len() + 1
                    &&& final(self).item_list.list@.last().type_@ == parsed_format(format@)
                    &&& final(self).item_list.list@.last().value == DataTransferItemValue::String(data)
                }
            },
    {
        if self.item_list.mode != DataTransferMode::ReadWrite {
            return;
        }
        let f = parse_format(format);
        self.item_list.remove_string_entries_by_format(&f, cache_key);
        let ghost cleared = self.item_list.list@;
        let _ = self.item_list.add_string(data, f, cache_key);
        assert(self.item_list.list@.subrange(0, cleared.len() as int) =~= cleared);
        assert(self.item_list.list@.len() >= cleared.len());
        assert(self.item_list.list@ == cleared || self.item_list.list@.len() == cleared.len() + 1);
    }

    /// Removes the string data of the given format, or of every format where none is given,
    /// where the store is read/write.
    pub fn clear_data(&mut self, format: Option<&str>, cache_key: u32)
        ensures
            old(self).item_list.mode != DataTransferMode::ReadWrite ==> *final(self) == *old(self),
            old(self).item_list.mode == DataTransferMode::ReadWrite && format is None && old(self).item_list.list@.len() > 0 ==> final(self).item_list.list@ == without_strings(
                old(self).item_list.list@,
            ),
            old(self).item_list.mode == DataTransferMode::ReadWrite && format is Some
                && old(self).item_list.has_type(parsed_format(format->0@)) ==> final(self).item_list.list@ == without_format(old(self).item_list.list@, parsed_format(format->0@)),
            final(self).drop_effect == old(self).drop_effect,
    {
        if self.item_list.mode != DataTransferMode::ReadWrite {
            return;
        }
        match format {
            None => self.item_list.remove_string_entries(cache_key),
            Some(s) => {
                let f = parse_format(s);
                self.item_list.remove_string_entries_by_format(&f, cache_key);
            },
        }
    }

    /// Uses the element `image` as the drag image, where the store is read/write and the
    /// element is an image element.
    pub fn set_drag_image(&mut self, image: u64, is_image_element: bool, x: i32, y: i32)
        ensures
            old(self).item_list.mode == DataTransferMode::ReadWrite && is_image_element ==> final(self).bitmap_image
                == Some(DataTransferBitmap { image, image_x: x, image_y: y }),
            !(old(self).item_list.mode == DataTransferMode::ReadWrite && is_image_element) ==> final(self).bitmap_image
                == old(self).bitmap_image,
            final(self).item_list == old(self).item_list,
            final(self).drop_effect == old(self).drop_effect,
    {
        if self.item_list.mode != DataTransferMode::ReadWrite {
            return;
        }
        if is_image_element {
            self.bitmap_image = Some(DataTransferBitmap { image, image_x: x, image_y: y });
        }
    }

    /// The files of the items.
    pub fn files(&self) -> (r: Vec<File>)
        ensures
            r@ == files_of(self.item_list.list@),
    {
        self.item_list.get_files()
    }

    /// The types of the items; records the item list's cache key as the one last read.
    pub fn types(&mut self) -> (r: Vec<String>)
        ensures
            r@ == old(self).item_list.types@,
            final(self).cache_key == old(self).item_list.cache_key,
            final(self).item_list == old(self).item_list,
    {
        let types = self.item_list.types();
        self.cache_key = self.item_list.cache_key();
        types
    }
}

} // verus!
