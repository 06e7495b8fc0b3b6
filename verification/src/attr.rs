//! Reads the `native` attributes of a struct and of its fields.
//!
//! Every attribute is read to its end: an error in one item is recorded and
//! the items after it are still read.

use vstd::prelude::*;
use crate::case::{rule_named, RenameRule};
use crate::ctxt::{gather, Ctxt, ErrorKind, ErrorModel};
use crate::model::{views, views_push};
use crate::schema::{Expr, FieldDecl, Meta, MetaValue, Schema};
use crate::text::{remove_spaces, trim, trim_text, unspaced};

verus! {

/// How the symbol of a field without explicit candidates is derived.
#[derive(Copy, Clone, Debug, PartialEq, Eq)]
pub struct ImplicitMetadata {
    pub rename: RenameRule,
    pub debug: Option<bool>,
}

impl Default for ImplicitMetadata {
    /// No rule, and nothing said of debug symbols.
    fn default() -> (r: Self)
        ensures
            r == (ImplicitMetadata { rename: RenameRule::Unset, debug: None }),
    {
        ImplicitMetadata { rename: RenameRule::Unset, debug: None }
    }
}

/// The decoration added to every logical symbol name.
#[derive(Debug, PartialEq, Eq)]
pub struct SymbolMetadata {
    pub prefix: Option<String>,
    pub suffix: Option<String>,
}

/// Model of the decoration.
pub struct SymbolModel {
    pub prefix: Option<Seq<char>>,
    pub suffix: Option<Seq<char>>,
}

/// The model of an optional text.
pub open spec fn text_model(s: Option<String>) -> Option<Seq<char>> {
    match s {
        Some(s) => Some(s@),
        None => None,
    }
}

impl View for SymbolMetadata {
    type V = SymbolModel;

    open spec fn view(&self) -> SymbolModel {
        SymbolModel { prefix: text_model(self.prefix), suffix: text_model(self.suffix) }
    }
}

impl Default for SymbolMetadata {
    /// No decoration.
    fn default() -> (r: Self)
        ensures
            r@ == (SymbolModel { prefix: None, suffix: None }),
    {
        SymbolMetadata { prefix: None, suffix: None }
    }
}

/// The options written on the struct.
#[derive(Debug, PartialEq, Eq)]
pub struct Metadata {
    pub implicit: ImplicitMetadata,
    pub symbol: SymbolMetadata,
    pub logger: bool,
}

/// Model of the options written on the struct.
pub struct MetadataModel {
    pub implicit: ImplicitMetadata,
    pub symbol: SymbolModel,
    pub logger: bool,
}

impl View for Metadata {
    type V = MetadataModel;

    open spec fn view(&self) -> MetadataModel {
        MetadataModel { implicit: self.implicit, symbol: self.symbol@, logger: self.logger }
    }
}

impl Default for Metadata {
    /// Nothing renamed, no debug symbols, no decoration, no logging.
    fn default() -> (r: Self)
        ensures
            r@ == struct_metadata(Seq::empty()),
    {
        Metadata {
            implicit: ImplicitMetadata::default(),
            symbol: SymbolMetadata::default(),
            logger: false,
        }
    }
}

/// An error of the given kind about the given text.
pub open spec fn err(kind: ErrorKind, detail: Seq<char>) -> Seq<ErrorModel> {
    seq![ErrorModel { kind, detail }]
}

/// No error.
pub open spec fn no_errors() -> Seq<ErrorModel> {
    Seq::empty()
}

/// The error of an item whose key is not known: it names the key, without
/// the spaces between its parts.
pub open spec fn unknown_key(item: Meta) -> Seq<ErrorModel> {
    err(ErrorKind::UnknownAttribute, unspaced(item.path@))
}

/// The expression inside any number of invisible groups.
pub open spec fn ungrouped(e: Expr) -> Expr
    decreases e,
{
    match e {
        Expr::Group(expr) => ungrouped(*expr),
        _ => e,
    }
}

/// The text of an attribute written as `key = "text"`.
pub open spec fn lit_str_value(meta: Meta) -> Option<Seq<char>> {
    match meta.value {
        MetaValue::Assign(e) => match ungrouped(e) {
            Expr::Str { value, .. } => Some(value@),
            _ => None,
        },
        _ => None,
    }
}

/// The errors of an attribute that must be written as `key = "text"`: a
/// suffix on the literal, or anything but a string literal.
pub open spec fn lit_str_errors(attr_name: Seq<char>, meta: Meta) -> Seq<ErrorModel> {
    match meta.value {
        MetaValue::Assign(e) => match ungrouped(e) {
            Expr::Str { suffix, .. } => if suffix@.len() > 0 {
                err(ErrorKind::UnexpectedSuffix, suffix@)
            } else {
                no_errors()
            },
            _ => err(ErrorKind::ExpectedString, attr_name),
        },
        _ => err(ErrorKind::ExpectedString, attr_name),
    }
}

/// The value of an attribute written as `key` (true) or `key = true / false`.
pub open spec fn lit_bool_value(meta: Meta) -> Option<bool> {
    match meta.value {
        MetaValue::Flag => Some(true),
        MetaValue::Assign(e) => match ungrouped(e) {
            Expr::Bool(value) => Some(value),
            _ => None,
        },
        MetaValue::List(_) => None,
    }
}

/// The error of an attribute that must be a boolean and is not.
pub open spec fn lit_bool_errors(attr_name: Seq<char>, meta: Meta) -> Seq<ErrorModel> {
    if lit_bool_value(meta) is Some {
        no_errors()
    } else {
        err(ErrorKind::ExpectedBool, attr_name)
    }
}

/// The implicit options after one more item of an `implicit(..)` list.
pub open spec fn implicit_step(acc: ImplicitMetadata, item: Meta) -> ImplicitMetadata {
    if item.path@ == "rename"@ {
        match lit_str_value(item) {
            Some(name) => match rule_named(name) {
                Some(rule) => ImplicitMetadata { rename: rule, debug: acc.debug },
                None => acc,
            },
            None => acc,
        }
    } else if item.path@ == "debug"@ {
        match lit_bool_value(item) {
            Some(b) => ImplicitMetadata { rename: acc.rename, debug: Some(b) },
            None => acc,
        }
    } else {
        acc
    }
}

/// The errors of one item of an `implicit(..)` list.
pub open spec fn implicit_item_errors(item: Meta) -> Seq<ErrorModel> {
    if item.path@ == "rename"@ {
        lit_str_errors("rename"@, item) + (match lit_str_value(item) {
            Some(name) => if rule_named(name) is None {
                err(ErrorKind::UnknownRenameRule, name)
            } else {
                no_errors()
            },
            None => no_errors(),
        })
    } else if item.path@ == "debug"@ {
        lit_bool_errors("debug"@, item)
    } else {
        unknown_key(item)
    }
}

/// The implicit options that a list of items gives: each item in turn, a
/// later one overriding an earlier one.
pub open spec fn implicit_of(items: Seq<Meta>) -> ImplicitMetadata
    decreases items.len(),
{
    if items.len() == 0 {
        ImplicitMetadata { rename: RenameRule::Unset, debug: None }
    } else {
        implicit_step(implicit_of(items.drop_last()), items.last())
    }
}

/// The errors of a list of `implicit` items, in the order of the items.
pub open spec fn implicit_errors_of(items: Seq<Meta>) -> Seq<ErrorModel> {
    gather(items, |item: Meta| implicit_item_errors(item))
}

/// The implicit options that an `implicit(..)` attribute gives.
pub open spec fn implicit_value(meta: Meta) -> ImplicitMetadata {
    match meta.value {
        MetaValue::List(items) => implicit_of(items@),
        _ => implicit_of(Seq::empty()),
    }
}

/// The errors of an `implicit(..)` attribute.
pub open spec fn implicit_errors(meta: Meta) -> Seq<ErrorModel> {
    match meta.value {
        MetaValue::List(items) => implicit_errors_of(items@),
        _ => err(ErrorKind::ExpectedList, "implicit"@),
    }
}

/// Records the error of an item whose key is not known.
fn error_unknown_key(cx: &mut Ctxt, item: &Meta)
    ensures
        final(cx)@ == old(cx)@ + unknown_key(*item),
{
    let key = remove_spaces(item.path.as_str());
    cx.error(ErrorKind::UnknownAttribute, key.as_str());
}

/// The expression inside any number of invisible groups.
pub fn skip_expr_group(expr: &Expr) -> (r: &Expr)
    ensures
        *r == ungrouped(*expr),
    decreases *expr,
{
    match expr {
        Expr::Group(inner) => skip_expr_group(inner),
        _ => expr,
    }
}

/// Reads an attribute that must be written as `key = "text"`. A suffix on
/// the literal is an error, and the text is still returned.
pub fn get_lit_str<'a>(cx: &mut Ctxt, attr_name: &str, meta: &'a Meta) -> (r: Option<&'a str>)
    ensures
        final(cx)@ == old(cx)@ + lit_str_errors(attr_name@, *meta),
        match r {
            Some(s) => lit_str_value(*meta) == Some(s@),
            None => lit_str_value(*meta) is None,
        },
{
    match &meta.value {
        MetaValue::Assign(expr) => match skip_expr_group(expr) {
            Expr::Str { value, suffix } => {
                if !suffix.as_str().is_empty() {
                    cx.error(ErrorKind::UnexpectedSuffix, suffix.as_str());
                }
                Some(value.as_str())
            },
            _ => {
                cx.error(ErrorKind::ExpectedString, attr_name);
                None
            },
        },
        _ => {
            cx.error(ErrorKind::ExpectedString, attr_name);
            None
        },
    }
}

/// Reads an attribute that is a boolean: the key alone means `true`.
pub fn get_lit_bool(cx: &mut Ctxt, attr_name: &str, meta: &Meta) -> (r: Option<bool>)
    ensures
        final(cx)@ == old(cx)@ + lit_bool_errors(attr_name@, *meta),
        r == lit_bool_value(*meta),
{
    match &meta.value {
        MetaValue::Flag => Some(true),
        MetaValue::Assign(expr) => match skip_expr_group(expr) {
            Expr::Bool(value) => Some(*value),
            _ => {
                cx.error(ErrorKind::ExpectedBool, attr_name);
                None
            },
        },
        MetaValue::List(_) => {
            cx.error(ErrorKind::ExpectedBool, attr_name);
            None
        },
    }
}

impl ImplicitMetadata {
    /// Reads an `implicit(..)` attribute: `rename = ".."` and `debug`.
    pub fn from_ast(cx: &mut Ctxt, meta: &Meta) -> (r: Self)
        ensures
            r == implicit_value(*meta),
            final(cx)@ == old(cx)@ + implicit_errors(*meta),
    {
        let mut metadata = Self::default();
        match &meta.value {
            MetaValue::List(items) => {
                for i in 0..items.len()
                    invariant
                        metadata == implicit_of(items@.take(i as int)),
                        cx@ == old(cx)@ + implicit_errors_of(items@.take(i as int)),
                {
                    let item = &items[i];
                    proof {
                        assert(items@.take(i + 1).drop_last() =~= items@.take(i as int));
                    }
                    if *item.path.as_str() == *"rename" {
                        if let Some(lit) = get_lit_str(cx, "rename", item) {
                            match RenameRule::from_str(lit) {
                                Ok(rule) => {
                                    metadata.rename = rule;
                                },
                                Err(e) => {
                                    cx.error(ErrorKind::UnknownRenameRule, e.unknown());
                                },
                            }
                        }
                    } else if *item.path.as_str() == *"debug" {
                        if let Some(b) = get_lit_bool(cx, "debug", item) {
                            metadata.debug = Some(b);
                        }
                    } else {
                        error_unknown_key(cx, item);
                    }
                }
                assert(items@.take(items@.len() as int) =~= items@);
            },
            _ => {
                cx.error(ErrorKind::ExpectedList, "implicit");
            },
        }
        metadata
    }
}

/// The name of a symbol candidate.
#[derive(Debug, PartialEq, Eq)]
pub enum LitString {
    /// A logical name, which the prefix and the suffix of the struct decorate.
    String(String),
    /// The exact bytes of the symbol name, which nothing is added to.
    CString(Vec<u8>),
}

/// Model of the name of a symbol candidate.
pub enum NameModel {
    String(Seq<char>),
    CString(Seq<u8>),
}

impl View for LitString {
    type V = NameModel;

    open spec fn view(&self) -> NameModel {
        match self {
            LitString::String(s) => NameModel::String(s@),
            LitString::CString(b) => NameModel::CString(b@),
        }
    }
}

/// One symbol candidate of a field.
#[derive(Debug, PartialEq, Eq)]
pub struct SymbolSpec {
    pub name: LitString,
    /// Whether the symbol is looked up among the debug symbols.
    pub debug: bool,
}

/// Model of a symbol candidate.
pub struct SpecModel {
    pub name: NameModel,
    pub debug: bool,
}

impl View for SymbolSpec {
    type V = SpecModel;

    open spec fn view(&self) -> SpecModel {
        SpecModel { name: self.name@, debug: self.debug }
    }
}

/// The options written on a field.
#[derive(Debug, PartialEq, Eq)]
pub struct FieldMetadata {
    pub implicit: ImplicitMetadata,
    /// The explicit candidates, most preferred first.
    pub symbols: Vec<SymbolSpec>,
    pub logger: Option<bool>,
}

/// Model of the options written on a field.
pub struct FieldModel {
    pub implicit: ImplicitMetadata,
    pub symbols: Seq<SpecModel>,
    pub logger: Option<bool>,
}

impl View for FieldMetadata {
    type V = FieldModel;

    open spec fn view(&self) -> FieldModel {
        FieldModel {
            implicit: self.implicit,
            symbols: views(self.symbols@),
            logger: self.logger,
        }
    }
}

impl Default for FieldMetadata {
    /// Nothing renamed, no explicit candidate, nothing said of logging.
    fn default() -> (r: Self)
        ensures
            r@ == field_metadata(Seq::empty()),
    {
        let r = FieldMetadata {
            implicit: ImplicitMetadata::default(),
            symbols: Vec::new(),
            logger: None,
        };
        assert(r@.symbols =~= Seq::<SpecModel>::empty());
        r
    }
}

/// The decoration after one more item of a `symbol(..)` list of the struct.
pub open spec fn decoration_step(acc: SymbolModel, item: Meta) -> SymbolModel {
    if item.path@ == "prefix"@ {
        match lit_str_value(item) {
            Some(text) => if text.len() > 0 {
                SymbolModel { prefix: Some(text), suffix: acc.suffix }
            } else {
                acc
            },
            None => acc,
        }
    } else if item.path@ == "suffix"@ {
        match lit_str_value(item) {
            Some(text) => if text.len() > 0 {
                SymbolModel { prefix: acc.prefix, suffix: Some(text) }
            } else {
                acc
            },
            None => acc,
        }
    } else {
        acc
    }
}

/// The errors of one item of a `symbol(..)` list of the struct.
pub open spec fn decoration_item_errors(item: Meta) -> Seq<ErrorModel> {
    if item.path@ == "prefix"@ {
        lit_str_errors("prefix"@, item)
    } else if item.path@ == "suffix"@ {
        lit_str_errors("suffix"@, item)
    } else {
        unknown_key(item)
    }
}

/// The decoration that a list of items gives.
pub open spec fn decoration_of(items: Seq<Meta>) -> SymbolModel
    decreases items.len(),
{
    if items.len() == 0 {
        SymbolModel { prefix: None, suffix: None }
    } else {
        decoration_step(decoration_of(items.drop_last()), items.last())
    }
}

/// The errors of a list of decoration items, in the order of the items.
pub open spec fn decoration_errors_of(items: Seq<Meta>) -> Seq<ErrorModel> {
    gather(items, |item: Meta| decoration_item_errors(item))
}

/// The decoration that a `symbol(..)` attribute of the struct gives.
pub open spec fn decoration_value(meta: Meta) -> SymbolModel {
    match meta.value {
        MetaValue::List(items) => decoration_of(items@),
        _ => decoration_of(Seq::empty()),
    }
}

/// The errors of a `symbol(..)` attribute of the struct.
pub open spec fn decoration_errors(meta: Meta) -> Seq<ErrorModel> {
    match meta.value {
        MetaValue::List(items) => decoration_errors_of(items@),
        _ => err(ErrorKind::ExpectedList, "symbol"@),
    }
}

impl SymbolMetadata {
    /// Reads a `symbol(..)` attribute of the struct: `prefix = ".."` and
    /// `suffix = ".."`. An empty text leaves the decoration as it was.
    pub fn from_ast(cx: &mut Ctxt, meta: &Meta) -> (r: Self)
        ensures
            r@ == decoration_value(*meta),
            final(cx)@ == old(cx)@ + decoration_errors(*meta),
    {
        let mut metadata = Self::default();
        match &meta.value {
            MetaValue::List(items) => {
                for i in 0..items.len()
                    invariant
                        metadata@ == decoration_of(items@.take(i as int)),
                        cx@ == old(cx)@ + decoration_errors_of(items@.take(i as int)),
                {
                    let item = &items[i];
                    proof {
                        assert(items@.take(i + 1).drop_last() =~= items@.take(i as int));
                    }
                    if *item.path.as_str() == *"prefix" {
                        if let Some(lit) = get_lit_str(cx, "prefix", item) {
                            if !lit.is_empty() {
                                metadata.prefix = Some(lit.to_owned());
                            }
                        }
                    } else if *item.path.as_str() == *"suffix" {
                        if let Some(lit) = get_lit_str(cx, "suffix", item) {
                            if !lit.is_empty() {
                                metadata.suffix = Some(lit.to_owned());
                            }
                        }
                    } else {
                        error_unknown_key(cx, item);
                    }
                }
                assert(items@.take(items@.len() as int) =~= items@);
            },
            _ => {
                cx.error(ErrorKind::ExpectedList, "symbol");
            },
        }
        metadata
    }
}

/// The options of the struct after one more item of a `native(..)` list.
pub open spec fn struct_item_step(acc: MetadataModel, item: Meta) -> MetadataModel {
    if item.path@ == "implicit"@ {
        MetadataModel { implicit: implicit_value(item), symbol: acc.symbol, logger: acc.logger }
    } else if item.path@ == "symbol"@ {
        MetadataModel { implicit: acc.implicit, symbol: decoration_value(item), logger: acc.logger }
    } else if item.path@ == "logger"@ {
        match lit_bool_value(item) {
            Some(b) => MetadataModel { implicit: acc.implicit, symbol: acc.symbol, logger: b },
            None => acc,
        }
    } else {
        acc
    }
}

/// The errors of one item of a `native(..)` list on the struct.
pub open spec fn struct_item_errors(item: Meta) -> Seq<ErrorModel> {
    if item.path@ == "implicit"@ {
        implicit_errors(item)
    } else if item.path@ == "symbol"@ {
        decoration_errors(item)
    } else if item.path@ == "logger"@ {
        lit_bool_errors("logger"@, item)
    } else {
        unknown_key(item)
    }
}

/// The options of the struct after a list of items, starting from `acc`.
pub open spec fn struct_items(acc: MetadataModel, items: Seq<Meta>) -> MetadataModel
    decreases items.len(),
{
    if items.len() == 0 {
        acc
    } else {
        struct_item_step(struct_items(acc, items.drop_last()), items.last())
    }
}

/// The errors of a list of items on the struct, in the order of the items.
pub open spec fn struct_items_errors(items: Seq<Meta>) -> Seq<ErrorModel> {
    gather(items, |item: Meta| struct_item_errors(item))
}

/// The options of the struct after one more attribute: only `native(..)` counts.
pub open spec fn struct_attr_step(acc: MetadataModel, attr: Meta) -> MetadataModel {
    if attr.path@ == "native"@ {
        match attr.value {
            MetaValue::List(items) => struct_items(acc, items@),
            _ => acc,
        }
    } else {
        acc
    }
}

/// The errors of one attribute of the struct.
pub open spec fn struct_attr_errors(attr: Meta) -> Seq<ErrorModel> {
    if attr.path@ == "native"@ {
        match attr.value {
            MetaValue::List(items) => struct_items_errors(items@),
            _ => err(ErrorKind::ExpectedList, "native"@),
        }
    } else {
        no_errors()
    }
}

/// The options that the attributes of a struct give: nothing renamed, no
/// debug symbols, no decoration and no logging unless an attribute says so.
pub open spec fn struct_metadata(attrs: Seq<Meta>) -> MetadataModel
    decreases attrs.len(),
{
    if attrs.len() == 0 {
        MetadataModel {
            implicit: ImplicitMetadata { rename: RenameRule::Unset, debug: None },
            symbol: SymbolModel { prefix: None, suffix: None },
            logger: false,
        }
    } else {
        struct_attr_step(struct_metadata(attrs.drop_last()), attrs.last())
    }
}

/// Every error of the attributes of a struct, in the order of the attributes.
pub open spec fn struct_errors(attrs: Seq<Meta>) -> Seq<ErrorModel> {
    gather(attrs, |item: Meta| struct_attr_errors(item))
}

impl Metadata {
    /// Reads the items of one `native(..)` list on the struct.
    fn read_items(&mut self, cx: &mut Ctxt, items: &Vec<Meta>)
        ensures
            final(self)@ == struct_items(old(self)@, items@),
            final(cx)@ == old(cx)@ + struct_items_errors(items@),
    {
        for i in 0..items.len()
            invariant
                self@ == struct_items(old(self)@, items@.take(i as int)),
                cx@ == old(cx)@ + struct_items_errors(items@.take(i as int)),
        {
            let item = &items[i];
            proof {
                assert(items@.take(i + 1).drop_last() =~= items@.take(i as int));
            }
            if *item.path.as_str() == *"implicit" {
                self.implicit = ImplicitMetadata::from_ast(cx, item);
            } else if *item.path.as_str() == *"symbol" {
                self.symbol = SymbolMetadata::from_ast(cx, item);
            } else if *item.path.as_str() == *"logger" {
                if let Some(b) = get_lit_bool(cx, "logger", item) {
                    self.logger = b;
                }
            } else {
                error_unknown_key(cx, item);
            }
        }
        assert(items@.take(items@.len() as int) =~= items@);
    }

    /// Reads the options written on the struct, from all its `native(..)`
    /// attributes in order.
    pub fn from_ast(cx: &mut Ctxt, ast: &Schema) -> (r: Self)
        ensures
            r@ == struct_metadata(ast.attrs@),
            final(cx)@ == old(cx)@ + struct_errors(ast.attrs@),
    {
        let mut metadata = Self::default();
        let attrs = &ast.attrs;
        for i in 0..attrs.len()
            invariant
                metadata@ == struct_metadata(attrs@.take(i as int)),
                cx@ == old(cx)@ + struct_errors(attrs@.take(i as int)),
        {
            let attr = &attrs[i];
            proof {
                assert(attrs@.take(i + 1).drop_last() =~= attrs@.take(i as int));
            }
            if *attr.path.as_str() == *"native" {
                match &attr.value {
                    MetaValue::List(items) => {
                        metadata.read_items(cx, items);
                    },
                    _ => {
                        cx.error(ErrorKind::ExpectedList, "native");
                    },
                }
            }
        }
        assert(attrs@.take(attrs@.len() as int) =~= attrs@);
        metadata
    }
}

/// Whether a literal suffix asks for a debug symbol: `d` or `debug`.
pub open spec fn debug_suffix(suffix: Seq<char>) -> bool {
    trim_text(suffix) == "d"@ || trim_text(suffix) == "debug"@
}

/// The error of a literal suffix that is neither empty, `d` nor `debug`.
pub open spec fn suffix_errors(suffix: Seq<char>) -> Seq<ErrorModel> {
    if trim_text(suffix).len() == 0 || debug_suffix(suffix) {
        no_errors()
    } else {
        err(ErrorKind::UnexpectedSuffix, trim_text(suffix))
    }
}

/// The candidate that one element of a `symbol` value stands for.
pub open spec fn element_spec(e: Expr) -> Option<SpecModel> {
    match e {
        Expr::Str { value, suffix } => Some(
            SpecModel { name: NameModel::String(value@), debug: debug_suffix(suffix@) },
        ),
        Expr::CStr { bytes, suffix } => Some(
            SpecModel { name: NameModel::CString(bytes@), debug: debug_suffix(suffix@) },
        ),
        _ => None,
    }
}

/// The errors of one element of a `symbol` value.
pub open spec fn element_errors(e: Expr) -> Seq<ErrorModel> {
    match e {
        Expr::Str { suffix, .. } => suffix_errors(suffix@),
        Expr::CStr { suffix, .. } => suffix_errors(suffix@),
        _ => err(ErrorKind::InvalidSymbolElement, ""@),
    }
}

/// The candidates after one more element.
pub open spec fn with_element(acc: Seq<SpecModel>, e: Expr) -> Seq<SpecModel> {
    match element_spec(e) {
        Some(spec) => acc.push(spec),
        None => acc,
    }
}

/// The candidates that a list of elements stands for, in the order of the
/// elements; an element that is no string literal gives none.
pub open spec fn specs_of(elems: Seq<Expr>) -> Seq<SpecModel>
    decreases elems.len(),
{
    if elems.len() == 0 {
        Seq::empty()
    } else {
        with_element(specs_of(elems.drop_last()), elems.last())
    }
}

/// The errors of a list of elements, in the order of the elements.
pub open spec fn specs_errors_of(elems: Seq<Expr>) -> Seq<ErrorModel> {
    gather(elems, |item: Expr| element_errors(item))
}

/// An array of string literals gives one candidate for each element, in
/// the order of the elements.
pub proof fn candidates_follow_the_array(elems: Seq<Expr>)
    requires
        forall|i: int| 0 <= i < elems.len() ==> element_spec(#[trigger] elems[i]) is Some,
    ensures
        specs_of(elems).len() == elems.len(),
        forall|i: int|
            0 <= i < elems.len() ==> #[trigger] specs_of(elems)[i] == element_spec(elems[i])->0,
    decreases elems.len(),
{
    if elems.len() > 0 {
        let before = elems.drop_last();
        assert forall|i: int| 0 <= i < before.len() implies element_spec(
            #[trigger] before[i],
        ) is Some by {
            assert(before[i] == elems[i]);
        }
        candidates_follow_the_array(before);
        assert forall|i: int| 0 <= i < elems.len() implies #[trigger] specs_of(elems)[i]
            == element_spec(elems[i])->0 by {
            if i < before.len() {
                assert(before[i] == elems[i]);
            }
        }
    }
}

/// The candidates of a `symbol = ..` attribute of a field: a string literal,
/// a C string literal, or an array of both. `None` for any other form.
pub open spec fn symbol_array_value(meta: Meta) -> Option<Seq<SpecModel>> {
    match meta.value {
        MetaValue::Assign(e) => match e {
            Expr::Array(elems) => Some(specs_of(elems@)),
            Expr::Str { .. } => Some(with_element(Seq::empty(), e)),
            Expr::CStr { .. } => Some(with_element(Seq::empty(), e)),
            _ => None,
        },
        _ => None,
    }
}

/// The errors of a `symbol = ..` attribute of a field.
pub open spec fn symbol_array_errors(meta: Meta) -> Seq<ErrorModel> {
    match meta.value {
        MetaValue::Assign(e) => match e {
            Expr::Array(elems) => specs_errors_of(elems@),
            Expr::Str { .. } => element_errors(e),
            Expr::CStr { .. } => element_errors(e),
            _ => err(ErrorKind::ExpectedSymbols, ""@),
        },
        _ => err(ErrorKind::ExpectedSymbols, ""@),
    }
}

/// Whether a literal suffix asks for a debug symbol; any suffix other than
/// `d` and `debug` is an error.
fn has_debug_suffix(cx: &mut Ctxt, suffix: &str) -> (r: bool)
    ensures
        r == debug_suffix(suffix@),
        final(cx)@ == old(cx)@ + suffix_errors(suffix@),
{
    let trimmed = trim(suffix);
    if trimmed.as_str().is_empty() {
        proof {
            reveal_strlit("d");
            reveal_strlit("debug");
        }
        false
    } else if *trimmed.as_str() == *"d" || *trimmed.as_str() == *"debug" {
        true
    } else {
        cx.error(ErrorKind::UnexpectedSuffix, trimmed.as_str());
        false
    }
}

/// Adds the candidate that one element stands for, if it is a string literal.
fn push_symbol_spec(cx: &mut Ctxt, out: &mut Vec<SymbolSpec>, expr: &Expr)
    ensures
        views(final(out)@) == with_element(views(old(out)@), *expr),
        final(cx)@ == old(cx)@ + element_errors(*expr),
{
    match expr {
        Expr::Str { value, suffix } => {
            let debug = has_debug_suffix(cx, suffix.as_str());
            let spec = SymbolSpec { name: LitString::String(value.clone()), debug };
            proof {
                views_push(out@, spec);
            }
            out.push(spec);
        },
        Expr::CStr { bytes, suffix } => {
            let debug = has_debug_suffix(cx, suffix.as_str());
            let spec = SymbolSpec { name: LitString::CString(bytes.clone()), debug };
            proof {
                views_push(out@, spec);
            }
            out.push(spec);
        },
        _ => {
            cx.error(ErrorKind::InvalidSymbolElement, "");
        },
    }
}

/// Reads the `symbol = ..` attribute of a field: the candidates in the order
/// written, `None` where the value is neither a literal nor an array.
pub fn get_symbol_array(cx: &mut Ctxt, meta: &Meta) -> (r: Option<Vec<SymbolSpec>>)
    ensures
        final(cx)@ == old(cx)@ + symbol_array_errors(*meta),
        match r {
            Some(specs) => symbol_array_value(*meta) == Some(views(specs@)),
            None => symbol_array_value(*meta) is None,
        },
{
    let mut out: Vec<SymbolSpec> = Vec::new();
    match &meta.value {
        MetaValue::Assign(expr) => match expr {
            Expr::Array(elems) => {
                for i in 0..elems.len()
                    invariant
                        views(out@) == specs_of(elems@.take(i as int)),
                        cx@ == old(cx)@ + specs_errors_of(elems@.take(i as int)),
                {
                    proof {
                        assert(elems@.take(i + 1).drop_last() =~= elems@.take(i as int));
                    }
                    push_symbol_spec(cx, &mut out, &elems[i]);
                }
                assert(elems@.take(elems@.len() as int) =~= elems@);
                Some(out)
            },
            Expr::Str { .. } => {
                push_symbol_spec(cx, &mut out, expr);
                Some(out)
            },
            Expr::CStr { .. } => {
                push_symbol_spec(cx, &mut out, expr);
                Some(out)
            },
            _ => {
                cx.error(ErrorKind::ExpectedSymbols, "");
                None
            },
        },
        _ => {
            cx.error(ErrorKind::ExpectedSymbols, "");
            None
        },
    }
}

/// The options of a field after one more item of a `native(..)` list.
pub open spec fn field_item_step(acc: FieldModel, item: Meta) -> FieldModel {
    if item.path@ == "implicit"@ {
        FieldModel { implicit: implicit_value(item), symbols: acc.symbols, logger: acc.logger }
    } else if item.path@ == "symbol"@ {
        match symbol_array_value(item) {
            Some(specs) => FieldModel {
                implicit: acc.implicit,
                symbols: specs,
                logger: acc.logger,
            },
            None => acc,
        }
    } else if item.path@ == "logger"@ {
        match lit_bool_value(item) {
            Some(b) => FieldModel {
                implicit: acc.implicit,
                symbols: acc.symbols,
                logger: Some(b),
            },
            None => acc,
        }
    } else {
        acc
    }
}

/// The errors of one item of a `native(..)` list on a field.
pub open spec fn field_item_errors(item: Meta) -> Seq<ErrorModel> {
    if item.path@ == "implicit"@ {
        implicit_errors(item)
    } else if item.path@ == "symbol"@ {
        symbol_array_errors(item)
    } else if item.path@ == "logger"@ {
        lit_bool_errors("logger"@, item)
    } else {
        unknown_key(item)
    }
}

/// The options of a field after a list of items, starting from `acc`.
pub open spec fn field_items(acc: FieldModel, items: Seq<Meta>) -> FieldModel
    decreases items.len(),
{
    if items.len() == 0 {
        acc
    } else {
        field_item_step(field_items(acc, items.drop_last()), items.last())
    }
}

/// The errors of a list of items on a field, in the order of the items.
pub open spec fn field_items_errors(items: Seq<Meta>) -> Seq<ErrorModel> {
    gather(items, |item: Meta| field_item_errors(item))
}

/// The options of a field after one more attribute: only `native(..)` counts.
pub open spec fn field_attr_step(acc: FieldModel, attr: Meta) -> FieldModel {
    if attr.path@ == "native"@ {
        match attr.value {
            MetaValue::List(items) => field_items(acc, items@),
            _ => acc,
        }
    } else {
        acc
    }
}

/// The errors of one attribute of a field.
pub open spec fn field_attr_errors(attr: Meta) -> Seq<ErrorModel> {
    if attr.path@ == "native"@ {
        match attr.value {
            MetaValue::List(items) => field_items_errors(items@),
            _ => err(ErrorKind::ExpectedList, "native"@),
        }
    } else {
        no_errors()
    }
}

/// The options that the attributes of a field give: nothing renamed, no
/// explicit candidate and no override unless an attribute says so.
pub open spec fn field_metadata(attrs: Seq<Meta>) -> FieldModel
    decreases attrs.len(),
{
    if attrs.len() == 0 {
        FieldModel {
            implicit: ImplicitMetadata { rename: RenameRule::Unset, debug: None },
            symbols: Seq::empty(),
            logger: None,
        }
    } else {
        field_attr_step(field_metadata(attrs.drop_last()), attrs.last())
    }
}

/// Every error of the attributes of a field, in the order of the attributes.
pub open spec fn field_errors(attrs: Seq<Meta>) -> Seq<ErrorModel> {
    gather(attrs, |item: Meta| field_attr_errors(item))
}

impl FieldMetadata {
    /// Reads the items of one `native(..)` list on a field.
    fn read_items(&mut self, cx: &mut Ctxt, items: &Vec<Meta>)
        ensures
            final(self)@ == field_items(old(self)@, items@),
            final(cx)@ == old(cx)@ + field_items_errors(items@),
    {
        for i in 0..items.len()
            invariant
                self@ == field_items(old(self)@, items@.take(i as int)),
                cx@ == old(cx)@ + field_items_errors(items@.take(i as int)),
        {
            let item = &items[i];
            proof {
                assert(items@.take(i + 1).drop_last() =~= items@.take(i as int));
            }
            if *item.path.as_str() == *"implicit" {
                self.implicit = ImplicitMetadata::from_ast(cx, item);
            } else if *item.path.as_str() == *"symbol" {
                if let Some(specs) = get_symbol_array(cx, item) {
                    self.symbols = specs;
                }
            } else if *item.path.as_str() == *"logger" {
                if let Some(b) = get_lit_bool(cx, "logger", item) {
                    self.logger = Some(b);
                }
            } else {
                error_unknown_key(cx, item);
            }
        }
        assert(items@.take(items@.len() as int) =~= items@);
    }

    /// Reads the options written on a field, from all its `native(..)`
    /// attributes in order.
    pub fn from_ast(cx: &mut Ctxt, field: &FieldDecl) -> (r: Self)
        ensures
            r@ == field_metadata(field.attrs@),
            final(cx)@ == old(cx)@ + field_errors(field.attrs@),
    {
        let mut metadata = Self::default();
        let attrs = &field.attrs;
        for i in 0..attrs.len()
            invariant
                metadata@ == field_metadata(attrs@.take(i as int)),
                cx@ == old(cx)@ + field_errors(attrs@.take(i as int)),
        {
            let attr = &attrs[i];
            proof {
                assert(attrs@.take(i + 1).drop_last() =~= attrs@.take(i as int));
            }
            if *attr.path.as_str() == *"native" {
                match &attr.value {
                    MetaValue::List(items) => {
                        metadata.read_items(cx, items);
                    },
                    _ => {
                        cx.error(ErrorKind::ExpectedList, "native");
                    },
                }
            }
        }
        assert(attrs@.take(attrs@.len() as int) =~= attrs@);
        metadata
    }
}

} // verus!
