use vstd::prelude::*;

use sha1::Digest;

use crate::cartridge::{ConsoleType, Header, HeaderModel, HeaderSource, Mirroring, Region};
use crate::error::NesError;
use crate::text::{arr_to_hex, hex_of, parse_u32, u32_from_str};

verus! {

/// An attribute of a node of the game database.
pub struct XmlAttribute {
    pub name: String,
    /// Whether the attribute's name lies in an XML namespace
    pub namespaced: bool,
    pub value: String,
}

/// An attribute as a value.
pub struct AttributeModel {
    pub name: Seq<char>,
    pub namespaced: bool,
    pub value: Seq<char>,
}

impl View for XmlAttribute {
    type V = AttributeModel;

    open spec fn view(&self) -> AttributeModel {
        AttributeModel { name: self.name@, namespaced: self.namespaced, value: self.value@ }
    }
}

/// A node of the game database, as its parent sees it.
pub struct XmlNode {
    /// The tag name of an element, empty for other nodes
    pub tag: String,
    pub is_comment: bool,
    /// The text of a comment or a text node; for an element, the text of its first child when
    /// that child is a text node (nothing otherwise)
    pub text: Option<String>,
    pub attributes: Vec<XmlAttribute>,
}

/// A node as a value.
pub struct NodeModel {
    pub tag: Seq<char>,
    pub is_comment: bool,
    pub text: Option<Seq<char>>,
    pub attributes: Seq<AttributeModel>,
}

impl View for XmlNode {
    type V = NodeModel;

    open spec fn view(&self) -> NodeModel {
        NodeModel {
            tag: self.tag@,
            is_comment: self.is_comment,
            text: match &self.text {
                Some(t) => Some(t@),
                None => None,
            },
            attributes: self.attributes@.map_values(|a: XmlAttribute| a@),
        }
    }
}

/// A node of the game database together with its children.
pub struct XmlElement {
    pub tag: String,
    pub children: Vec<XmlNode>,
}

/// An element as a value.
pub struct ElementModel {
    pub tag: Seq<char>,
    pub children: Seq<NodeModel>,
}

impl View for XmlElement {
    type V = ElementModel;

    open spec fn view(&self) -> ElementModel {
        ElementModel { tag: self.tag@, children: self.children@.map_values(|n: XmlNode| n@) }
    }
}

/// The elements of a list, as values.
pub open spec fn elements_model(es: Seq<XmlElement>) -> Seq<ElementModel> {
    es.map_values(|e: XmlElement| e@)
}

/// The SHA-1 digest of `data`, as the `sha1` crate computes it.
pub uninterp spec fn sha1_digest_of(data: Seq<u8>) -> Seq<u8>;

/// Computes the SHA-1 digest of `data` with `sha1::Sha1::digest`. Of the digest it is stated
/// that it is a function of `data` and that it is 20 bytes long (SHA-1's output size).
#[verifier::external_body]
fn sha1_digest(data: &[u8]) -> (r: Vec<u8>)
    ensures
        r@ == sha1_digest_of(data@),
        r@.len() == 20,
{
    sha1::Sha1::digest(data).to_vec()
}

/// Every node of the XML document `xml`, in document order, with its children, as
/// `roxmltree` parses it; nothing if the text is not a well-formed document.
pub uninterp spec fn xml_elements(xml: Seq<char>) -> Option<Seq<ElementModel>>;

/// Parses `xml` with `roxmltree::Document::parse` and hands out each node of
/// `Document::descendants` with its `children`: tag names, comment flags, texts and
/// attributes are copied one for one. What the parser makes of a given text is not stated.
#[verifier::external_body]
fn parse_xml(xml: &str) -> (r: Option<Vec<XmlElement>>)
    ensures
        match r {
            Some(es) => xml_elements(xml@) == Some(elements_model(es@)),
            None => xml_elements(xml@) is None,
        },
{
    let doc = roxmltree::Document::parse(xml).ok()?;
    Some(doc.descendants().map(|e| XmlElement {
        tag: e.tag_name().name().to_owned(),
        children: e.children().map(|n| XmlNode {
            tag: n.tag_name().name().to_owned(),
            is_comment: n.is_comment(),
            text: n.text().map(str::to_owned),
            attributes: n.attributes().map(|a| XmlAttribute {
                name: a.name().to_owned(), namespaced: a.namespace().is_some(),
                value: a.value().to_owned() }).collect(),
        }).collect(),
    }).collect())
}

/// The value of the first attribute named `name`, outside any namespace, if there is one.
pub open spec fn attribute_of(attrs: Seq<AttributeModel>, name: Seq<char>) -> Option<Seq<char>>
    decreases attrs.len(),
{
    if attrs.len() == 0 {
        None
    } else if !attrs[0].namespaced && attrs[0].name == name {
        Some(attrs[0].value)
    } else {
        attribute_of(attrs.drop_first(), name)
    }
}

/// The first child with tag name `tag`, if there is one.
pub open spec fn child_with_tag(children: Seq<NodeModel>, tag: Seq<char>) -> Option<NodeModel>
    decreases children.len(),
{
    if children.len() == 0 {
        None
    } else if children[0].tag == tag {
        Some(children[0])
    } else {
        child_with_tag(children.drop_first(), tag)
    }
}

/// The first comment among the children, if there is one.
pub open spec fn first_comment(children: Seq<NodeModel>) -> Option<NodeModel>
    decreases children.len(),
{
    if children.len() == 0 {
        None
    } else if children[0].is_comment {
        Some(children[0])
    } else {
        first_comment(children.drop_first())
    }
}

/// Whether some child with tag name `tag` has the attribute `attr` set to `value`.
pub open spec fn has_child_attr(
    children: Seq<NodeModel>,
    tag: Seq<char>,
    attr: Seq<char>,
    value: Seq<char>,
) -> bool {
    exists|i: int|
        0 <= i < children.len() && #[trigger] children[i].tag == tag && attribute_of(
            children[i].attributes,
            attr,
        ) == Some(value)
}

/// The value of the first attribute of `node` named `name`, outside any namespace.
fn attribute<'a>(node: &'a XmlNode, name: &str) -> (r: Option<&'a String>)
    ensures
        match r {
            Some(v) => attribute_of(node@.attributes, name@) == Some(v@),
            None => attribute_of(node@.attributes, name@) is None,
        },
{
    let key = name.to_owned();
    let ghost attrs = node@.attributes;
    let mut i: usize = 0;
    assert(attrs.subrange(0, attrs.len() as int) =~= attrs);
    while i < node.attributes.len()
        invariant
            i <= node.attributes@.len(),
            attrs == node@.attributes,
            key@ == name@,
            attribute_of(attrs, name@) == attribute_of(attrs.subrange(i as int, attrs.len() as int), name@),
        decreases node.attributes.len() - i,
    {
        let a = &node.attributes[i];
        assert(attrs.subrange(i as int, attrs.len() as int)[0] == a@);
        if !a.namespaced && a.name == key {
            return Some(&a.value);
        }
        assert(attrs.subrange(i as int, attrs.len() as int).drop_first() =~= attrs.subrange(
            i + 1,
            attrs.len() as int,
        ));
        i += 1;
    }
    None
}

/// The first child of `children` with tag name `tag`.
fn find_child_tag<'a>(children: &'a Vec<XmlNode>, tag: &str) -> (r: Option<&'a XmlNode>)
    ensures
        opt_node(r) == child_with_tag(children@.map_values(|n: XmlNode| n@), tag@),
{
    let key = tag.to_owned();
    let ghost cs = children@.map_values(|n: XmlNode| n@);
    let mut i: usize = 0;
    assert(cs.subrange(0, cs.len() as int) =~= cs);
    while i < children.len()
        invariant
            i <= children@.len(),
            cs == children@.map_values(|n: XmlNode| n@),
            key@ == tag@,
            child_with_tag(cs, tag@) == child_with_tag(cs.subrange(i as int, cs.len() as int), tag@),
        decreases children.len() - i,
    {
        let n = &children[i];
        assert(cs.subrange(i as int, cs.len() as int)[0] == n@);
        if n.tag == key {
            return Some(n);
        }
        assert(cs.subrange(i as int, cs.len() as int).drop_first() =~= cs.subrange(
            i + 1,
            cs.len() as int,
        ));
        i += 1;
    }
    None
}

/// Whether some child with tag name `tag` has the attribute `attr` set to `value`.
fn any_child_attr(children: &Vec<XmlNode>, tag: &str, attr: &str, value: &String) -> (r: bool)
    ensures
        r == has_child_attr(children@.map_values(|n: XmlNode| n@), tag@, attr@, value@),
{
    let key = tag.to_owned();
    let ghost cs = children@.map_values(|n: XmlNode| n@);
    let mut i: usize = 0;
    while i < children.len()
        invariant
            i <= children@.len(),
            cs == children@.map_values(|n: XmlNode| n@),
            key@ == tag@,
            forall|j: int|
                0 <= j < i ==> !(#[trigger] cs[j].tag == tag@ && attribute_of(
                    cs[j].attributes,
                    attr@,
                ) == Some(value@)),
        decreases children.len() - i,
    {
        let n = &children[i];
        assert(cs[i as int] == n@);
        if n.tag == key {
            match attribute(n, attr) {
                Some(v) => {
                    if *v == *value {
                        assert(cs[i as int].tag == tag@ && attribute_of(cs[i as int].attributes, attr@)
                            == Some(value@));
                        return true;
                    }
                },
                None => {},
            }
        }
        i += 1;
    }
    false
}

/// The text after the first backslash of `s`, if `s` has one.
pub open spec fn after_backslash(s: Seq<char>) -> Option<Seq<char>>
    decreases s.len(),
{
    if s.len() == 0 {
        None
    } else if s[0] == '\\' {
        Some(s.drop_first())
    } else {
        after_backslash(s.drop_first())
    }
}

/// `s` without all of its trailing `.nes` extensions.
pub open spec fn trim_nes(s: Seq<char>) -> Seq<char>
    decreases s.len(),
{
    if s.len() >= 4 && s.subrange(s.len() - 4, s.len() as int) == seq!['.', 'n', 'e', 's'] {
        trim_nes(s.subrange(0, s.len() - 4))
    } else {
        s
    }
}

/// The name of a game: the file name in the text of its first comment, after the first
/// backslash and without trailing `.nes` extensions.
pub open spec fn game_name(children: Seq<NodeModel>) -> Option<Seq<char>> {
    match first_comment(children) {
        Some(c) => match c.text {
            Some(t) => match after_backslash(t) {
                Some(rest) => Some(trim_nes(rest)),
                None => None,
            },
            None => None,
        },
        None => None,
    }
}

/// The value of the attribute `attr` of a node that may be missing.
pub open spec fn attr_value(node: Option<NodeModel>, attr: Seq<char>) -> Option<Seq<char>> {
    match node {
        Some(n) => attribute_of(n.attributes, attr),
        None => None,
    }
}

/// The number in the attribute `attr` of a node; nothing when the node or the attribute is
/// missing or the attribute is not a `u32`.
pub open spec fn required_u32(node: Option<NodeModel>, attr: Seq<char>) -> Option<u32> {
    match attr_value(node, attr) {
        Some(v) => u32_from_str(v),
        None => None,
    }
}

/// The number in the attribute `attr` of a node, `Some(None)` when the node or the attribute
/// is missing, and `None` when the attribute is there and is not a `u32`.
pub open spec fn optional_u32(node: Option<NodeModel>, attr: Seq<char>) -> Option<Option<u32>> {
    match attr_value(node, attr) {
        Some(v) => match u32_from_str(v) {
            Some(x) => Some(Some(x)),
            None => None,
        },
        None => Some(None),
    }
}

/// The mirroring that the game database writes as `v`.
pub open spec fn mirroring_from_db(v: Seq<char>) -> Option<Mirroring> {
    if v == "V"@ {
        Some(Mirroring::Vertical)
    } else if v == "H"@ {
        Some(Mirroring::Horizontal)
    } else if v == "4"@ {
        Some(Mirroring::FourScreen)
    } else {
        None
    }
}

/// The console type that the game database writes as `v`.
pub open spec fn console_from_db(v: Seq<char>) -> Option<ConsoleType> {
    if v == "0"@ {
        Some(ConsoleType::Standard)
    } else if v == "1"@ {
        Some(ConsoleType::VsSystem)
    } else if v == "2"@ {
        Some(ConsoleType::Playchoice)
    } else if v == "3"@ {
        Some(ConsoleType::Extended)
    } else {
        None
    }
}

/// The region that the game database writes as `v`.
pub open spec fn region_from_db(v: Seq<char>) -> Option<Region> {
    if v == "0"@ {
        Some(Region::Ntsc)
    } else if v == "1"@ {
        Some(Region::Pal)
    } else if v == "2"@ {
        Some(Region::Multi)
    } else if v == "3"@ {
        Some(Region::Dendy)
    } else {
        None
    }
}

/// Parses an attribute value with `parse`, missing values included.
pub open spec fn parsed<T>(v: Option<Seq<char>>, parse: spec_fn(Seq<char>) -> Option<T>) -> Option<T> {
    match v {
        Some(v) => parse(v),
        None => None,
    }
}

/// The header that a `game` element of the game database describes; nothing when a part of
/// it is missing or malformed.
pub open spec fn game_info(g: ElementModel) -> Option<HeaderModel> {
    let c = g.children;
    let name = game_name(c);
    let pcb = child_with_tag(c, "pcb"@);
    let prg_rom_size = required_u32(child_with_tag(c, "prgrom"@), "size"@);
    let chr_rom_size = optional_u32(child_with_tag(c, "chrrom"@), "size"@);
    let chr_ram_size = optional_u32(child_with_tag(c, "chrram"@), "size"@);
    let prg_ram_size = optional_u32(child_with_tag(c, "prgram"@), "size"@);
    let prg_nvram_size = optional_u32(child_with_tag(c, "prgnvram"@), "size"@);
    let mapper = required_u32(pcb, "mapper"@);
    let submapper = required_u32(pcb, "submapper"@);
    let mirroring = parsed(attr_value(pcb, "mirroring"@), |v| mirroring_from_db(v));
    let battery = required_u32(pcb, "battery"@);
    let console = child_with_tag(c, "console"@);
    let console_typ = parsed(attr_value(console, "type"@), |v| console_from_db(v));
    let region = parsed(attr_value(console, "region"@), |v| region_from_db(v));
    let expansion = required_u32(child_with_tag(c, "expansion"@), "type"@);
    if name is Some && pcb is Some && prg_rom_size is Some && chr_rom_size is Some
        && chr_ram_size is Some && prg_ram_size is Some && prg_nvram_size is Some && mapper is Some
        && submapper is Some && mirroring is Some && battery is Some && console is Some
        && console_typ is Some && region is Some && expansion is Some {
        Some(
            HeaderModel {
                source: HeaderSource::GameDb,
                name: name->0,
                prg_rom_size: prg_rom_size->0,
                chr_rom_size: chr_rom_size->0,
                chr_ram_size: chr_ram_size->0,
                prg_ram_size: prg_ram_size->0,
                prg_nvram_size: prg_nvram_size->0,
                mapper: mapper->0,
                submapper: submapper->0,
                mirroring: mirroring->0,
                battery: battery->0 != 0,
                console_typ: console_typ->0,
                region: region->0,
                expansion: expansion->0,
            },
        )
    } else {
        None
    }
}

/// The view of a node that may be missing.
pub open spec fn opt_node(n: Option<&XmlNode>) -> Option<NodeModel> {
    match n {
        Some(n) => Some(n@),
        None => None,
    }
}

/// The first comment among `children`.
fn find_comment<'a>(children: &'a Vec<XmlNode>) -> (r: Option<&'a XmlNode>)
    ensures
        opt_node(r) == first_comment(children@.map_values(|n: XmlNode| n@)),
{
    let ghost cs = children@.map_values(|n: XmlNode| n@);
    let mut i: usize = 0;
    assert(cs.subrange(0, cs.len() as int) =~= cs);
    while i < children.len()
        invariant
            i <= children@.len(),
            cs == children@.map_values(|n: XmlNode| n@),
            first_comment(cs) == first_comment(cs.subrange(i as int, cs.len() as int)),
        decreases children.len() - i,
    {
        let n = &children[i];
        assert(cs.subrange(i as int, cs.len() as int)[0] == n@);
        if n.is_comment {
            return Some(n);
        }
        assert(cs.subrange(i as int, cs.len() as int).drop_first() =~= cs.subrange(
            i + 1,
            cs.len() as int,
        ));
        i += 1;
    }
    None
}

/// Where the text after the first backslash of `text` starts, if it has a backslash.
fn after_backslash_start(text: &str) -> (r: Option<usize>)
    ensures
        match r {
            Some(start) => start <= text@.len() && after_backslash(text@) == Some(
                text@.subrange(start as int, text@.len() as int),
            ),
            None => after_backslash(text@) is None,
        },
{
    let len = text.unicode_len();
    let mut i: usize = 0;
    assert(text@.subrange(0, len as int) =~= text@);
    while i < len
        invariant
            i <= len,
            len == text@.len(),
            after_backslash(text@) == after_backslash(text@.subrange(i as int, len as int)),
        decreases len - i,
    {
        let rest = Ghost(text@.subrange(i as int, len as int));
        assert(rest@[0] == text@[i as int]);
        assert(rest@.drop_first() =~= text@.subrange(i + 1, len as int));
        if text.get_char(i) == '\\' {
            return Some(i + 1);
        }
        i += 1;
    }
    None
}

/// The name of a game, taken from the text of a comment.
fn name_from_comment(text: &str) -> (r: Option<String>)
    ensures
        match r {
            Some(name) => match after_backslash(text@) {
                Some(rest) => name@ == trim_nes(rest),
                None => false,
            },
            None => after_backslash(text@) is None,
        },
{
    let start = match after_backslash_start(text) {
        Some(start) => start,
        None => return None,
    };
    let len = text.unicode_len();
    let mut end = len;
    while end - start >= 4 && text.get_char(end - 4) == '.' && text.get_char(end - 3) == 'n'
        && text.get_char(end - 2) == 'e' && text.get_char(end - 1) == 's'
        invariant
            start <= end <= len,
            len == text@.len(),
            trim_nes(text@.subrange(start as int, len as int)) == trim_nes(
                text@.subrange(start as int, end as int),
            ),
        decreases end,
    {
        let s = Ghost(text@.subrange(start as int, end as int));
        assert(s@.subrange(s@.len() - 4, s@.len() as int) =~= seq!['.', 'n', 'e', 's']);
        assert(s@.subrange(0, s@.len() - 4) =~= text@.subrange(start as int, end - 4));
        end -= 4;
    }
    proof {
        let s = text@.subrange(start as int, end as int);
        if s.len() >= 4 && s.subrange(s.len() - 4, s.len() as int) == seq!['.', 'n', 'e', 's'] {
            assert(s.subrange(s.len() - 4, s.len() as int)[0] == text@[end - 4]);
            assert(s.subrange(s.len() - 4, s.len() as int)[1] == text@[end - 3]);
            assert(s.subrange(s.len() - 4, s.len() as int)[2] == text@[end - 2]);
            assert(s.subrange(s.len() - 4, s.len() as int)[3] == text@[end - 1]);
        }
    }
    Some(text.substring_char(start, end).to_owned())
}

/// The value of the attribute `attr` of a node that may be missing.
fn attr_str<'a>(node: Option<&'a XmlNode>, attr: &str) -> (r: Option<&'a String>)
    ensures
        match r {
            Some(v) => attr_value(opt_node(node), attr@) == Some(v@),
            None => attr_value(opt_node(node), attr@) is None,
        },
{
    match node {
        Some(n) => attribute(n, attr),
        None => None,
    }
}

/// Reads the number in the attribute `attr` of a node; both must be there.
fn parse_attr_required(node: Option<&XmlNode>, attr: &str) -> (r: Result<u32, NesError>)
    ensures
        match r {
            Ok(v) => required_u32(opt_node(node), attr@) == Some(v),
            Err(e) => e == NesError::GameDbFormat && required_u32(opt_node(node), attr@) is None,
        },
{
    match attr_str(node, attr) {
        Some(v) => match parse_u32(v.as_str()) {
            Some(x) => Ok(x),
            None => Err(NesError::GameDbFormat),
        },
        None => Err(NesError::GameDbFormat),
    }
}

/// Reads the number in the attribute `attr` of a node, if the node and the attribute are
/// there.
fn parse_attr(node: Option<&XmlNode>, attr: &str) -> (r: Result<Option<u32>, NesError>)
    ensures
        match r {
            Ok(v) => optional_u32(opt_node(node), attr@) == Some(v),
            Err(e) => e == NesError::GameDbFormat && optional_u32(opt_node(node), attr@) is None,
        },
{
    match attr_str(node, attr) {
        Some(v) => match parse_u32(v.as_str()) {
            Some(x) => Ok(Some(x)),
            None => Err(NesError::GameDbFormat),
        },
        None => Ok(None),
    }
}

impl Mirroring {
    /// Reads a mirroring the way the game database writes it.
    pub fn try_from_str(value: &str) -> (r: Result<Mirroring, NesError>)
        ensures
            match r {
                Ok(m) => mirroring_from_db(value@) == Some(m),
                Err(e) => e == NesError::GameDbFormat && mirroring_from_db(value@) is None,
            },
    {
        let v = value.to_owned();
        if v == "V".to_owned() {
            Ok(Mirroring::Vertical)
        } else if v == "H".to_owned() {
            Ok(Mirroring::Horizontal)
        } else if v == "4".to_owned() {
            Ok(Mirroring::FourScreen)
        } else {
            Err(NesError::GameDbFormat)
        }
    }
}

impl ConsoleType {
    /// Reads a console type the way the game database writes it.
    pub fn try_from_str(value: &str) -> (r: Result<ConsoleType, NesError>)
        ensures
            match r {
                Ok(c) => console_from_db(value@) == Some(c),
                Err(e) => e == NesError::GameDbFormat && console_from_db(value@) is None,
            },
    {
        let v = value.to_owned();
        if v == "0".to_owned() {
            Ok(ConsoleType::Standard)
        } else if v == "1".to_owned() {
            Ok(ConsoleType::VsSystem)
        } else if v == "2".to_owned() {
            Ok(ConsoleType::Playchoice)
        } else if v == "3".to_owned() {
            Ok(ConsoleType::Extended)
        } else {
            Err(NesError::GameDbFormat)
        }
    }
}

impl Region {
    /// Reads a region the way the game database writes it.
    pub fn try_from_str(value: &str) -> (r: Result<Region, NesError>)
        ensures
            match r {
                Ok(reg) => region_from_db(value@) == Some(reg),
                Err(e) => e == NesError::GameDbFormat && region_from_db(value@) is None,
            },
    {
        let v = value.to_owned();
        if v == "0".to_owned() {
            Ok(Region::Ntsc)
        } else if v == "1".to_owned() {
            Ok(Region::Pal)
        } else if v == "2".to_owned() {
            Ok(Region::Multi)
        } else if v == "3".to_owned() {
            Ok(Region::Dendy)
        } else {
            Err(NesError::GameDbFormat)
        }
    }
}

impl Header {
    /// Reads the header that a `game` element of the game database describes.
    pub fn parse_game_info(game: &XmlElement) -> (r: Result<Header, NesError>)
        ensures
            match r {
                Ok(h) => game_info(game@) == Some(h@),
                Err(e) => e == NesError::GameDbFormat && game_info(game@) is None,
            },
    {
        let c = &game.children;
        let name = match find_comment(c) {
            Some(comment) => match &comment.text {
                Some(text) => name_from_comment(text.as_str()),
                None => None,
            },
            None => None,
        };
        let name = match name {
            Some(name) => name,
            None => return Err(NesError::GameDbFormat),
        };
        let pcb = find_child_tag(c, "pcb");
        if pcb.is_none() {
            return Err(NesError::GameDbFormat);
        }
        let prg_rom_size = parse_attr_required(find_child_tag(c, "prgrom"), "size");
        let prg_rom_size = match prg_rom_size {
            Ok(v) => v,
            Err(e) => return Err(e),
        };
        let chr_rom_size = match parse_attr(find_child_tag(c, "chrrom"), "size") {
            Ok(v) => v,
            Err(e) => return Err(e),
        };
        let chr_ram_size = match parse_attr(find_child_tag(c, "chrram"), "size") {
            Ok(v) => v,
            Err(e) => return Err(e),
        };
        let prg_ram_size = match parse_attr(find_child_tag(c, "prgram"), "size") {
            Ok(v) => v,
            Err(e) => return Err(e),
        };
        let prg_nvram_size = match parse_attr(find_child_tag(c, "prgnvram"), "size") {
            Ok(v) => v,
            Err(e) => return Err(e),
        };
        let mapper = match parse_attr_required(pcb, "mapper") {
            Ok(v) => v,
            Err(e) => return Err(e),
        };
        let submapper = match parse_attr_required(pcb, "submapper") {
            Ok(v) => v,
            Err(e) => return Err(e),
        };
        let mirroring = match attr_str(pcb, "mirroring") {
            Some(v) => match Mirroring::try_from_str(v.as_str()) {
                Ok(m) => m,
                Err(e) => return Err(e),
            },
            None => return Err(NesError::GameDbFormat),
        };
        let battery = match parse_attr_required(pcb, "battery") {
            Ok(v) => v != 0,
            Err(e) => return Err(e),
        };
        let console = find_child_tag(c, "console");
        if console.is_none() {
            return Err(NesError::GameDbFormat);
        }
        let console_typ = match attr_str(console, "type") {
            Some(v) => match ConsoleType::try_from_str(v.as_str()) {
                Ok(t) => t,
                Err(e) => return Err(e),
            },
            None => return Err(NesError::GameDbFormat),
        };
        let region = match attr_str(console, "region") {
            Some(v) => match Region::try_from_str(v.as_str()) {
                Ok(reg) => reg,
                Err(e) => return Err(e),
            },
            None => return Err(NesError::GameDbFormat),
        };
        let expansion = match parse_attr_required(find_child_tag(c, "expansion"), "type") {
            Ok(v) => v,
            Err(e) => return Err(e),
        };
        Ok(Header {
            source: HeaderSource::GameDb,
            name,
            prg_rom_size,
            chr_rom_size,
            chr_ram_size,
            prg_ram_size,
            prg_nvram_size,
            mapper,
            submapper,
            mirroring,
            battery,
            console_typ,
            region,
            expansion,
        })
    }
}

/// Whether `g` is the `game` element of a standard NES game whose PRG ROM, and CHR ROM when
/// one is given, have the given SHA-1 digests.
pub open spec fn game_matches(g: ElementModel, prg_sha1: Seq<char>, chr_sha1: Option<Seq<char>>) -> bool {
    &&& g.tag == "game"@
    &&& has_child_attr(g.children, "prgrom"@, "sha1"@, prg_sha1)
    &&& match chr_sha1 {
        Some(c) => has_child_attr(g.children, "chrrom"@, "sha1"@, c),
        None => true,
    }
    &&& has_child_attr(g.children, "console"@, "type"@, "0"@)
}

/// The first element of `games` that matches the digests.
pub open spec fn first_game(
    games: Seq<ElementModel>,
    prg_sha1: Seq<char>,
    chr_sha1: Option<Seq<char>>,
) -> Option<ElementModel>
    decreases games.len(),
{
    if games.len() == 0 {
        None
    } else if game_matches(games[0], prg_sha1, chr_sha1) {
        Some(games[0])
    } else {
        first_game(games.drop_first(), prg_sha1, chr_sha1)
    }
}

/// What a search of the game database for the digests gives: the header of the first game
/// that matches, an error if that game's entry is malformed, and nothing if no game matches.
pub open spec fn find_game_result(
    games: Seq<ElementModel>,
    prg_sha1: Seq<char>,
    chr_sha1: Option<Seq<char>>,
) -> Result<Option<HeaderModel>, NesError> {
    match first_game(games, prg_sha1, chr_sha1) {
        Some(g) => match game_info(g) {
            Some(h) => Ok(Some(h)),
            None => Err(NesError::GameDbFormat),
        },
        None => Ok(None),
    }
}

/// The result of a search of the game database, with the header taken by its view.
pub open spec fn lookup_model(r: Result<Option<Header>, NesError>) -> Result<Option<HeaderModel>, NesError> {
    match r {
        Ok(Some(h)) => Ok(Some(h@)),
        Ok(None) => Ok(None),
        Err(e) => Err(e),
    }
}

/// The view of a string that may be missing.
pub open spec fn opt_str(s: Option<&str>) -> Option<Seq<char>> {
    match s {
        Some(s) => Some(s@),
        None => None,
    }
}

/// What a search of the game database `gamedb`, an XML text, gives for a PRG ROM and
/// maybe a CHR ROM, which are found by the hexadecimal SHA-1 digests of their bytes.
pub open spec fn db_lookup(gamedb: Seq<char>, prg: Seq<u8>, chr: Option<Seq<u8>>) -> Result<Option<HeaderModel>, NesError> {
    match xml_elements(gamedb) {
        Some(games) => find_game_result(
            games,
            hex_of(sha1_digest_of(prg)),
            match chr {
                Some(c) => Some(hex_of(sha1_digest_of(c))),
                None => None,
            },
        ),
        None => Err(NesError::GameDbFormat),
    }
}

impl Header {
    /// Searches the nodes of the game database for the first standard NES game whose PRG ROM,
    /// and CHR ROM when one is given, have the given SHA-1 digests, and reads its header.
    pub fn find_game_in(games: &Vec<XmlElement>, prg_sha1: &str, chr_sha1: Option<&str>) -> (r: Result<Option<Header>, NesError>)
        ensures
            lookup_model(r) == find_game_result(elements_model(games@), prg_sha1@, opt_str(chr_sha1)),
    {
        let ghost gs = elements_model(games@);
        let prg = prg_sha1.to_owned();
        let chr = match chr_sha1 {
            Some(c) => Some(c.to_owned()),
            None => None,
        };
        let standard = "0".to_owned();
        let game_tag = "game".to_owned();
        let ghost chr_view = opt_str(chr_sha1);
        let mut i: usize = 0;
        assert(gs.subrange(0, gs.len() as int) =~= gs);
        while i < games.len()
            invariant
                i <= games@.len(),
                gs == elements_model(games@),
                prg@ == prg_sha1@,
                standard@ == "0"@,
                game_tag@ == "game"@,
                chr_view == opt_str(chr_sha1),
                match chr {
                    Some(c) => chr_view == Some(c@),
                    None => chr_view is None,
                },
                first_game(gs, prg_sha1@, chr_view) == first_game(
                    gs.subrange(i as int, gs.len() as int),
                    prg_sha1@,
                    chr_view,
                ),
            decreases games.len() - i,
        {
            let game = &games[i];
            assert(gs.subrange(i as int, gs.len() as int)[0] == game@);
            let chr_matches = match &chr {
                Some(c) => any_child_attr(&game.children, "chrrom", "sha1", c),
                None => true,
            };
            let is_normal_nes = any_child_attr(&game.children, "console", "type", &standard);
            if game.tag == game_tag && any_child_attr(&game.children, "prgrom", "sha1", &prg)
                && chr_matches && is_normal_nes {
                return match Self::parse_game_info(game) {
                    Ok(h) => Ok(Some(h)),
                    Err(e) => Err(e),
                };
            }
            assert(gs.subrange(i as int, gs.len() as int).drop_first() =~= gs.subrange(
                i + 1,
                gs.len() as int,
            ));
            i += 1;
        }
        Ok(None)
    }

    /// Parses the game database `gamedb` and searches it for the first standard NES game whose
    /// PRG ROM, and CHR ROM when one is given, have the given SHA-1 digests.
    pub fn find_game(gamedb: &str, prg_sha1: &str, chr_sha1: Option<&str>) -> (r: Result<Option<Header>, NesError>)
        ensures
            lookup_model(r) == match xml_elements(gamedb@) {
                Some(games) => find_game_result(games, prg_sha1@, opt_str(chr_sha1)),
                None => Err(NesError::GameDbFormat),
            },
    {
        match parse_xml(gamedb) {
            Some(games) => Self::find_game_in(&games, prg_sha1, chr_sha1),
            None => Err(NesError::GameDbFormat),
        }
    }

    /// Looks a game up in the game database `gamedb` by the SHA-1 digests of its PRG ROM and,
    /// if it has one, of its CHR ROM.
    pub fn from_prg_chr(gamedb: &str, prg: &[u8], chr: Option<&[u8]>) -> (r: Result<Option<Header>, NesError>)
        ensures
            lookup_model(r) == db_lookup(
                gamedb@,
                prg@,
                match chr {
                    Some(c) => Some(c@),
                    None => None,
                },
            ),
    {
        let prg_digest = sha1_digest(prg);
        let prg_sha1 = arr_to_hex(prg_digest.as_slice());
        let chr_sha1 = match chr {
            Some(c) => {
                let chr_digest = sha1_digest(c);
                Some(arr_to_hex(chr_digest.as_slice()))
            },
            None => None,
        };
        let chr_str = match &chr_sha1 {
            Some(s) => Some(s.as_str()),
            None => None,
        };
        Self::find_game(gamedb, prg_sha1.as_str(), chr_str)
    }
}

} // verus!
