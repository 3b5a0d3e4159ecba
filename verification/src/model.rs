use vstd::prelude::*;

verus! {

/// The raw per-member annotation as the host front end hands it over, before
/// the directive grammar has looked at it.  Only the shape of the marker is
/// recorded here; the text inside it is kept verbatim.
pub enum Annotation {
    /// No marker on this member.
    Absent,
    /// A bare marker with no payload.
    Bare,
    /// A marker in `marker = value` form; the value text is kept verbatim.
    Value(String),
    /// A marker in `marker(payload)` form; the payload text is kept verbatim.
    Payload(String),
}

/// Mathematical image of an `Annotation`.
pub enum AnnotationView {
    Absent,
    Bare,
    Value(Seq<char>),
    Payload(Seq<char>),
}

impl View for Annotation {
    type V = AnnotationView;

    open spec fn view(&self) -> AnnotationView {
        match self {
            Annotation::Absent => AnnotationView::Absent,
            Annotation::Bare => AnnotationView::Bare,
            Annotation::Value(s) => AnnotationView::Value(s@),
            Annotation::Payload(s) => AnnotationView::Payload(s@),
        }
    }
}

/// One named field of a record or of a named-field variant.
pub struct NamedField {
    pub name: String,
    pub annotation: Annotation,
}

pub struct NamedFieldView {
    pub name: Seq<char>,
    pub annotation: AnnotationView,
}

impl View for NamedField {
    type V = NamedFieldView;

    open spec fn view(&self) -> NamedFieldView {
        NamedFieldView { name: self.name@, annotation: self.annotation@ }
    }
}

/// The members of one record, kept shape-uniform by construction: a record is
/// entirely unit, entirely positional, or entirely named.
pub enum FieldList {
    Unit,
    /// Positional members carry only their annotation; the identity of the
    /// i-th entry is the index i itself.
    Positional(Vec<Annotation>),
    Named(Vec<NamedField>),
}

pub enum FieldListView {
    Unit,
    Positional(Seq<AnnotationView>),
    Named(Seq<NamedFieldView>),
}

impl View for FieldList {
    type V = FieldListView;

    open spec fn view(&self) -> FieldListView {
        match self {
            FieldList::Unit => FieldListView::Unit,
            FieldList::Positional(a) => FieldListView::Positional(
                a@.map_values(|x: Annotation| x@),
            ),
            FieldList::Named(f) => FieldListView::Named(f@.map_values(|x: NamedField| x@)),
        }
    }
}

/// The member shape of one tagged-union variant.  Members of a variant carry
/// no directives of their own: a directive sits on the variant as a whole.
pub enum VariantShape {
    Unit,
    /// A positional variant is fully described by its member count.
    Positional(usize),
    /// A named variant is fully described by its member names, in order.
    Named(Vec<String>),
}

pub enum VariantShapeView {
    Unit,
    Positional(nat),
    Named(Seq<Seq<char>>),
}

impl View for VariantShape {
    type V = VariantShapeView;

    open spec fn view(&self) -> VariantShapeView {
        match self {
            VariantShape::Unit => VariantShapeView::Unit,
            VariantShape::Positional(n) => VariantShapeView::Positional(*n as nat),
            VariantShape::Named(names) => VariantShapeView::Named(
                names@.map_values(|s: String| s@),
            ),
        }
    }
}

/// One variant of a tagged union.  The directive marker attaches to the
/// variant as a unit, never to one of its members.
pub struct Variant {
    pub name: String,
    pub annotation: Annotation,
    pub shape: VariantShape,
}

pub struct VariantView {
    pub name: Seq<char>,
    pub annotation: AnnotationView,
    pub shape: VariantShapeView,
}

impl View for Variant {
    type V = VariantView;

    open spec fn view(&self) -> VariantView {
        VariantView { name: self.name@, annotation: self.annotation@, shape: self.shape@ }
    }
}

/// The top-level kind of a type definition.
pub enum TypeKind {
    Record(FieldList),
    TaggedUnion(Vec<Variant>),
    /// An overlapping-storage kind.  Its members are carried along but are
    /// never processed: classification stops generation before they matter.
    Unsupported(FieldList),
}

pub enum TypeKindView {
    Record(FieldListView),
    TaggedUnion(Seq<VariantView>),
    Unsupported(FieldListView),
}

impl View for TypeKind {
    type V = TypeKindView;

    open spec fn view(&self) -> TypeKindView {
        match self {
            TypeKind::Record(f) => TypeKindView::Record(f@),
            TypeKind::TaggedUnion(v) => TypeKindView::TaggedUnion(
                v@.map_values(|x: Variant| x@),
            ),
            TypeKind::Unsupported(f) => TypeKindView::Unsupported(f@),
        }
    }
}

/// One type definition: the whole input of a generation request.
pub struct TypeDef {
    pub name: String,
    pub kind: TypeKind,
}

pub struct TypeDefView {
    pub name: Seq<char>,
    pub kind: TypeKindView,
}

impl View for TypeDef {
    type V = TypeDefView;

    open spec fn view(&self) -> TypeDefView {
        TypeDefView { name: self.name@, kind: self.kind@ }
    }
}

/// The parsed form of one annotation: exactly one directive per member.
#[derive(Debug, PartialEq, Eq)]
pub enum Directive {
    Absent,
    Bare,
    /// An opaque replacement expression, substituted verbatim.
    Literal(String),
    /// Use the member type's default-construction value.
    DefaultValue,
    /// An opaque reference to a duplication function.
    FunctionOverride(String),
    /// A payload none of the recognized forms matched: passed through
    /// verbatim, exactly like a literal.
    Unrecognized(String),
}

pub enum DirectiveView {
    Absent,
    Bare,
    Literal(Seq<char>),
    DefaultValue,
    FunctionOverride(Seq<char>),
    Unrecognized(Seq<char>),
}

impl View for Directive {
    type V = DirectiveView;

    open spec fn view(&self) -> DirectiveView {
        match self {
            Directive::Absent => DirectiveView::Absent,
            Directive::Bare => DirectiveView::Bare,
            Directive::Literal(s) => DirectiveView::Literal(s@),
            Directive::DefaultValue => DirectiveView::DefaultValue,
            Directive::FunctionOverride(s) => DirectiveView::FunctionOverride(s@),
            Directive::Unrecognized(s) => DirectiveView::Unrecognized(s@),
        }
    }
}

/// Which value a resolved function override receives: a reference to the one
/// member (record granularity) or the whole matched variant (tagged-union
/// granularity).  The two are different by design and must not be unified.
#[derive(Debug, PartialEq, Eq, Clone, Copy)]
pub enum CallReceiver {
    MemberRef,
    WholeVariant,
}

/// The resolved duplication strategy of one member or one variant.
#[derive(Debug, PartialEq, Eq)]
pub enum Strategy {
    RecurseClone,
    EmitLiteral(String),
    EmitDefault,
    EmitFunctionCall(String, CallReceiver),
}

pub enum StrategyView {
    RecurseClone,
    EmitLiteral(Seq<char>),
    EmitDefault,
    EmitFunctionCall(Seq<char>, CallReceiver),
}

impl View for Strategy {
    type V = StrategyView;

    open spec fn view(&self) -> StrategyView {
        match self {
            Strategy::RecurseClone => StrategyView::RecurseClone,
            Strategy::EmitLiteral(s) => StrategyView::EmitLiteral(s@),
            Strategy::EmitDefault => StrategyView::EmitDefault,
            Strategy::EmitFunctionCall(s, r) => StrategyView::EmitFunctionCall(s@, *r),
        }
    }
}

/// Whether a variant keeps its structural duplication or is replaced as a
/// whole by an override expression.
pub enum CloneMode {
    Standard,
    Overridden(String),
}

pub enum CloneModeView {
    Standard,
    Overridden(Seq<char>),
}

impl View for CloneMode {
    type V = CloneModeView;

    open spec fn view(&self) -> CloneModeView {
        match self {
            CloneMode::Standard => CloneModeView::Standard,
            CloneMode::Overridden(s) => CloneModeView::Overridden(s@),
        }
    }
}

/// Where a fatal directive fault sits: on the i-th record member, or on the
/// marker of the i-th variant.
#[derive(Debug, PartialEq, Eq, Clone, Copy)]
pub enum ErrorSite {
    Field(usize),
    VariantMarker(usize),
}

pub enum ErrorSiteView {
    Field(int),
    VariantMarker(int),
}

impl View for ErrorSite {
    type V = ErrorSiteView;

    open spec fn view(&self) -> ErrorSiteView {
        match self {
            ErrorSite::Field(i) => ErrorSiteView::Field(*i as int),
            ErrorSite::VariantMarker(i) => ErrorSiteView::VariantMarker(*i as int),
        }
    }
}

/// The one fatal fault a generation request can report: a recognized
/// directive whose quoted payload is malformed.  Generation for the whole
/// type aborts; no partial output exists.
#[derive(Debug, PartialEq, Eq, Clone, Copy)]
pub enum GenError {
    MalformedDirective(ErrorSite),
}

pub enum GenErrorView {
    MalformedDirective(ErrorSiteView),
}

impl View for GenError {
    type V = GenErrorView;

    open spec fn view(&self) -> GenErrorView {
        match self {
            GenError::MalformedDirective(s) => GenErrorView::MalformedDirective(s@),
        }
    }
}

} // verus!
