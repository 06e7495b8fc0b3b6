//! The symbol names to look up for a field, in the order in which they are tried.

use vstd::prelude::*;
use vstd::string::{StrSliceExecFns, StringExecFns};
use vstd::utf8::{decode_utf8, encode_utf8, encode_utf8_decode_utf8, encode_utf8_valid_utf8,
    valid_utf8};
use crate::ast::{Field, Metadata};
use crate::attr::{FieldModel, LitString, MetadataModel, NameModel, SpecModel, SymbolMetadata,
    SymbolModel, SymbolSpec};
use crate::case::RenameRule;
use crate::model::{views, views_push};
use crate::text::{trim, trim_text};

verus! {

/// One symbol name to look up.
#[derive(Debug, PartialEq, Eq)]
pub struct Candidate {
    /// The bytes of the name as the library exports it.
    pub name: Vec<u8>,
    /// Whether it is looked up among the debug symbols.
    pub is_debug: bool,
}

/// Model of a symbol name to look up.
pub struct CandidateModel {
    pub name: Seq<u8>,
    pub is_debug: bool,
}

impl View for Candidate {
    type V = CandidateModel;

    open spec fn view(&self) -> CandidateModel {
        CandidateModel { name: self.name@, is_debug: self.is_debug }
    }
}

/// The candidates of one field, most preferred first. It is never empty.
#[derive(Debug, PartialEq, Eq)]
pub struct ResolutionPlan {
    candidates: Vec<Candidate>,
    logger: bool,
}

/// Model of the plan of a field.
pub struct PlanModel {
    pub candidates: Seq<CandidateModel>,
    /// Whether lookups of this field are logged.
    pub logger: bool,
}

impl View for ResolutionPlan {
    type V = PlanModel;

    closed spec fn view(&self) -> PlanModel {
        PlanModel { candidates: views(self.candidates@), logger: self.logger }
    }
}

/// The rule in force for a field: its own, else that of the struct.
pub open spec fn effective_rule(field: FieldModel, container: MetadataModel) -> RenameRule {
    field.implicit.rename.or_spec(container.implicit.rename)
}

/// Whether the implicit symbol of a field is a debug symbol: as the field
/// says, else as the struct says, else not.
pub open spec fn effective_debug(field: FieldModel, container: MetadataModel) -> bool {
    match field.implicit.debug {
        Some(b) => b,
        None => match container.implicit.debug {
            Some(b) => b,
            None => false,
        },
    }
}

/// Whether lookups of a field are logged: as the field says, else as the
/// struct says.
pub open spec fn effective_logger(field: FieldModel, container: MetadataModel) -> bool {
    match field.logger {
        Some(b) => b,
        None => container.logger,
    }
}

/// The one candidate of a field without explicit candidates: the field name
/// under the rule in force.
pub open spec fn implicit_candidate(
    ident: Seq<char>,
    field: FieldModel,
    container: MetadataModel,
) -> SpecModel {
    SpecModel {
        name: NameModel::String(effective_rule(field, container).applied(ident)),
        debug: effective_debug(field, container),
    }
}

/// The candidates of a field before decoration: the explicit ones in the
/// order written, or the implicit one where none were written.
pub open spec fn candidates_of(
    ident: Seq<char>,
    field: FieldModel,
    container: MetadataModel,
) -> Seq<SpecModel> {
    if field.symbols.len() == 0 {
        seq![implicit_candidate(ident, field, container)]
    } else {
        field.symbols
    }
}

/// A logical name between the trimmed prefix and the trimmed suffix.
pub open spec fn decorated_text(name: Seq<char>, deco: SymbolModel) -> Seq<char> {
    let front = match deco.prefix {
        Some(prefix) => trim_text(prefix) + name,
        None => name,
    };
    match deco.suffix {
        Some(suffix) => front + trim_text(suffix),
        None => front,
    }
}

/// The bytes looked up for a name: a logical name is decorated and encoded
/// as UTF-8, exact bytes are kept as they are.
pub open spec fn decorated(name: NameModel, deco: SymbolModel) -> Seq<u8> {
    match name {
        NameModel::String(s) => encode_utf8(decorated_text(s, deco)),
        NameModel::CString(b) => b,
    }
}

/// The lookup that a candidate becomes.
pub open spec fn planned(spec: SpecModel, deco: SymbolModel) -> CandidateModel {
    CandidateModel { name: decorated(spec.name, deco), is_debug: spec.debug }
}

/// The lookups that a list of candidates becomes, in the same order.
pub open spec fn planned_all(specs: Seq<SpecModel>, deco: SymbolModel) -> Seq<CandidateModel> {
    Seq::new(specs.len(), |i: int| planned(specs[i], deco))
}

/// The plan of a field.
pub open spec fn plan_of(ident: Seq<char>, field: FieldModel, container: MetadataModel)
    -> PlanModel {
    PlanModel {
        candidates: planned_all(candidates_of(ident, field, container), container.symbol),
        logger: effective_logger(field, container),
    }
}

/// The lookup that a candidate becomes under the decoration of the struct.
fn plan_candidate(spec: &SymbolSpec, deco: &SymbolMetadata) -> (r: Candidate)
    ensures
        r@ == planned(spec@, deco@),
{
    let name = match &spec.name {
        LitString::String(name) => {
            let mut symbol = match &deco.prefix {
                Some(prefix) => {
                    let mut front = trim(prefix.as_str());
                    front.append(name.as_str());
                    front
                },
                None => name.clone(),
            };
            if let Some(suffix) = &deco.suffix {
                let back = trim(suffix.as_str());
                symbol.append(back.as_str());
            }
            symbol.as_str().as_bytes_vec()
        },
        LitString::CString(bytes) => bytes.clone(),
    };
    Candidate { name, is_debug: spec.debug }
}

impl ResolutionPlan {
    /// A plan of the candidates given, most preferred first. No plan is
    /// made of an empty list.
    pub fn new(candidates: Vec<Candidate>, logger: bool) -> (r: Option<Self>)
        ensures
            match r {
                Some(plan) => candidates@.len() > 0 && plan@ == (PlanModel {
                    candidates: views(candidates@),
                    logger,
                }),
                None => candidates@.len() == 0,
            },
    {
        if candidates.len() == 0 {
            None
        } else {
            Some(ResolutionPlan { candidates, logger })
        }
    }

    /// The number of candidates, which is at least one.
    pub fn len(&self) -> (r: usize)
        ensures
            r == self@.candidates.len(),
            r > 0,
    {
        proof {
            use_type_invariant(self);
        }
        self.candidates.len()
    }

    /// The candidate at a position; position 0 is tried first.
    pub fn candidate(&self, index: usize) -> (r: &Candidate)
        requires
            index < self@.candidates.len(),
        ensures
            r@ == self@.candidates[index as int],
    {
        &self.candidates[index]
    }

    /// Whether lookups of this field are logged.
    pub fn logger(&self) -> (r: bool)
        ensures
            r == self@.logger,
    {
        self.logger
    }

    #[verifier::type_invariant]
    spec fn never_empty(&self) -> bool {
        self.candidates@.len() > 0
    }
}

/// Builds the plan of a field: its explicit candidates in the order written,
/// or the one derived from its name, each decorated as the struct asks.
pub fn generate_symbols_load_expr(field: &Field, meta: &Metadata) -> (r: ResolutionPlan)
    ensures
        r@ == plan_of(field.ident@, field.attrs@, meta.attrs@),
        r@.candidates.len() > 0,
{
    let logger = match field.attrs.logger {
        Some(b) => b,
        None => meta.attrs.logger,
    };
    let mut candidates: Vec<Candidate> = Vec::new();
    if field.attrs.symbols.len() == 0 {
        let implicit = &field.attrs.implicit;
        let ast_implicit = &meta.attrs.implicit;
        let symbol = implicit.rename.or(ast_implicit.rename).apply_to_field(field.ident);
        let debug = match implicit.debug {
            Some(b) => b,
            None => match ast_implicit.debug {
                Some(b) => b,
                None => false,
            },
        };
        let spec = SymbolSpec { name: LitString::String(symbol), debug };
        let candidate = plan_candidate(&spec, &meta.attrs.symbol);
        proof {
            views_push(candidates@, candidate);
        }
        candidates.push(candidate);
        assert(views(candidates@) =~= plan_of(field.ident@, field.attrs@, meta.attrs@).candidates);
    } else {
        let symbols = &field.attrs.symbols;
        for i in 0..symbols.len()
            invariant
                views(candidates@) =~= planned_all(views(symbols@), meta.attrs.symbol@).take(
                    i as int,
                ),
        {
            let candidate = plan_candidate(&symbols[i], &meta.attrs.symbol);
            proof {
                views_push(candidates@, candidate);
            }
            candidates.push(candidate);
        }
        assert(views(candidates@) =~= plan_of(field.ident@, field.attrs@, meta.attrs@).candidates);
    }
    ResolutionPlan { candidates, logger }
}

/// An option written on a field wins over the same option of the struct,
/// and a field that does not write it takes that of the struct.
pub proof fn field_options_win(field: FieldModel, container: MetadataModel)
    ensures
        field.implicit.rename != RenameRule::Unset ==> effective_rule(field, container)
            == field.implicit.rename,
        field.implicit.rename == RenameRule::Unset ==> effective_rule(field, container)
            == container.implicit.rename,
        field.implicit.debug is Some ==> effective_debug(field, container)
            == field.implicit.debug->0,
        field.implicit.debug is None && container.implicit.debug is Some ==> effective_debug(
            field,
            container,
        ) == container.implicit.debug->0,
        field.implicit.debug is None && container.implicit.debug is None ==> !effective_debug(
            field,
            container,
        ),
        field.logger is Some ==> effective_logger(field, container) == field.logger->0,
        field.logger is None ==> effective_logger(field, container) == container.logger,
{
}

/// A plan is never empty: a field without explicit candidates has exactly
/// one, its name under the rule in force.
pub proof fn plan_is_never_empty(ident: Seq<char>, field: FieldModel, container: MetadataModel)
    ensures
        plan_of(ident, field, container).candidates.len() > 0,
        field.symbols.len() == 0 ==> plan_of(ident, field, container).candidates == seq![
            planned(implicit_candidate(ident, field, container), container.symbol),
        ],
{
    if field.symbols.len() == 0 {
    }
}

/// The explicit candidates of a field are planned in the order in which
/// they were written: none is added, dropped or moved.
pub proof fn plan_keeps_order(ident: Seq<char>, field: FieldModel, container: MetadataModel)
    requires
        field.symbols.len() > 0,
    ensures
        plan_of(ident, field, container).candidates.len() == field.symbols.len(),
        forall|i: int|
            0 <= i < field.symbols.len() ==> #[trigger] plan_of(
                ident,
                field,
                container,
            ).candidates[i] == planned(field.symbols[i], container.symbol),
{
}

/// Exact bytes are looked up as they are, whatever the decoration; a logical
/// name gets the trimmed prefix before it and the trimmed suffix after it.
pub proof fn decoration_spares_exact_bytes(
    bytes: Seq<u8>,
    name: Seq<char>,
    prefix: Seq<char>,
    suffix: Seq<char>,
    deco: SymbolModel,
)
    ensures
        decorated(NameModel::CString(bytes), deco) == bytes,
        decorated(NameModel::String(name), SymbolModel { prefix: None, suffix: None })
            == encode_utf8(name),
        decorated(NameModel::String(name), SymbolModel { prefix: Some(prefix), suffix: None })
            == encode_utf8(trim_text(prefix) + name),
        decorated(NameModel::String(name), SymbolModel { prefix: None, suffix: Some(suffix) })
            == encode_utf8(name + trim_text(suffix)),
        decorated(
            NameModel::String(name),
            SymbolModel { prefix: Some(prefix), suffix: Some(suffix) },
        ) == encode_utf8(trim_text(prefix) + name + trim_text(suffix)),
{
}

/// The bytes looked up for a logical name are UTF-8, and read back as the
/// decorated name: this is the text that a failed lookup shows.
pub proof fn logical_names_read_back(name: Seq<char>, deco: SymbolModel)
    ensures
        valid_utf8(decorated(NameModel::String(name), deco)),
        decode_utf8(decorated(NameModel::String(name), deco)) == decorated_text(name, deco),
{
    encode_utf8_valid_utf8(decorated_text(name, deco));
    encode_utf8_decode_utf8(decorated_text(name, deco));
}

} // verus!
