//! The part of a JavaScript / JSX syntax tree that message recognition
//! reads. Whatever it never looks into is kept as an opaque handle, a number
//! by which the owner of the full tree finds the node again.

use vstd::prelude::*;

verus! {

/// An expression.
#[derive(Debug, PartialEq, Eq)]
pub enum Expr {
    /// An identifier, by its name.
    Ident(String),
    /// A string literal, by its value.
    Str(String),
    /// A number literal, by the text that prints its value.
    Num(String),
    /// `obj.prop`, `obj[prop]` or `obj.#prop`.
    Member(Box<Expr>, MemberProp),
    /// A call.
    Call(CallExpr),
    /// A tagged template.
    TaggedTpl(TaggedTpl),
    /// An object literal.
    Object(Vec<Prop>),
    /// A JSX element in expression position.
    JsxElement(Box<JsxElement>),
    /// A JSX fragment, kept whole.
    JsxFragment(u64),
    /// Any other expression, kept whole.
    Opaque(u64),
}

/// The property of a member access.
#[derive(Debug, PartialEq, Eq)]
pub enum MemberProp {
    /// `.name`
    Ident(String),
    /// A computed or private property, kept whole.
    Opaque(u64),
}

/// `callee(args)`.
#[derive(Debug, PartialEq, Eq)]
pub struct CallExpr {
    pub callee: Box<Expr>,
    pub args: Vec<ExprOrSpread>,
    /// The byte position at which the callee starts.
    pub pos: u32,
}

/// One argument of a call, possibly spread.
#[derive(Debug, PartialEq, Eq)]
pub struct ExprOrSpread {
    pub spread: bool,
    pub expr: Expr,
}

/// `` tag`quasi${expr}quasi` ``.
#[derive(Debug, PartialEq, Eq)]
pub struct TaggedTpl {
    pub tag: Box<Expr>,
    /// The raw text of each literal piece.
    pub quasis: Vec<String>,
    /// The interpolated expressions; the first stands after the first piece.
    pub exprs: Vec<Expr>,
    /// The byte position at which the tag starts.
    pub pos: u32,
}

/// One member of an object literal.
#[derive(Debug, PartialEq, Eq)]
pub enum Prop {
    /// `key: value`
    KeyValue(PropName, Expr),
    /// A spread, shorthand, accessor or method, kept whole.
    Opaque(u64),
}

/// The key of a `key: value` property.
#[derive(Debug, PartialEq, Eq)]
pub enum PropName {
    Ident(String),
    Str(String),
    /// A numeric key, by the text that prints its value.
    Num(String),
    /// A computed key, kept whole.
    Opaque(u64),
}

/// A JSX element.
#[derive(Debug, PartialEq, Eq)]
pub struct JsxElement {
    pub name: JsxElementName,
    pub attrs: Vec<JsxAttr>,
    pub self_closing: bool,
    pub children: Vec<JsxChild>,
}

/// The name in a JSX tag.
#[derive(Debug, PartialEq, Eq)]
pub enum JsxElementName {
    /// `<Name>`
    Ident(String),
    /// `<Object.Property>`
    Member(String, String),
    /// A deeper member chain or a namespaced name, kept whole.
    Opaque(u64),
}

/// One attribute of a JSX element.
#[derive(Debug, PartialEq, Eq)]
pub enum JsxAttr {
    /// `name`, `name="text"`, `name={expr}`
    Named(JsxAttrName, Option<JsxAttrValue>),
    /// `{...spread}`, kept whole.
    Spread(u64),
}

/// The name of a JSX attribute.
#[derive(Debug, PartialEq, Eq)]
pub enum JsxAttrName {
    Ident(String),
    /// `namespace:name`
    Namespaced(String, String),
}

/// The value of a JSX attribute.
#[derive(Debug, PartialEq, Eq)]
pub enum JsxAttrValue {
    /// `name="text"`
    Str(String),
    /// `name={expr}`
    Container(Expr),
    /// `name={}`
    Empty,
    /// `name=<element/>`
    Element(Box<JsxElement>),
    /// `name=<>...</>`, kept whole.
    Fragment(u64),
}

/// One child of a JSX element.
#[derive(Debug, PartialEq, Eq)]
pub enum JsxChild {
    Text(String),
    /// `{expr}`
    Container(Expr),
    Element(Box<JsxElement>),
    /// `<>...</>`, kept whole.
    Fragment(u64),
    /// An empty container or a spread child, kept whole.
    Opaque(u64),
}

/// What an [`Expr`] is, as a mathematical value.
pub enum ExprView {
    Ident(Seq<char>),
    Str(Seq<char>),
    Num(Seq<char>),
    Member(Box<ExprView>, MemberPropView),
    Call(CallExprView),
    TaggedTpl(TaggedTplView),
    Object(Seq<PropView>),
    JsxElement(Box<JsxElementView>),
    JsxFragment(u64),
    Opaque(u64),
}

pub enum MemberPropView {
    Ident(Seq<char>),
    Opaque(u64),
}

pub struct CallExprView {
    pub callee: Box<ExprView>,
    pub args: Seq<ExprOrSpreadView>,
    pub pos: u32,
}

pub struct ExprOrSpreadView {
    pub spread: bool,
    pub expr: ExprView,
}

pub struct TaggedTplView {
    pub tag: Box<ExprView>,
    pub quasis: Seq<Seq<char>>,
    pub exprs: Seq<ExprView>,
    pub pos: u32,
}

pub enum PropView {
    KeyValue(PropNameView, ExprView),
    Opaque(u64),
}

pub enum PropNameView {
    Ident(Seq<char>),
    Str(Seq<char>),
    Num(Seq<char>),
    Opaque(u64),
}

pub struct JsxElementView {
    pub name: JsxElementNameView,
    pub attrs: Seq<JsxAttrView>,
    pub self_closing: bool,
    pub children: Seq<JsxChildView>,
}

pub enum JsxElementNameView {
    Ident(Seq<char>),
    Member(Seq<char>, Seq<char>),
    Opaque(u64),
}

pub enum JsxAttrView {
    Named(JsxAttrNameView, Option<JsxAttrValueView>),
    Spread(u64),
}

pub enum JsxAttrNameView {
    Ident(Seq<char>),
    Namespaced(Seq<char>, Seq<char>),
}

pub enum JsxAttrValueView {
    Str(Seq<char>),
    Container(ExprView),
    Empty,
    Element(Box<JsxElementView>),
    Fragment(u64),
}

pub enum JsxChildView {
    Text(Seq<char>),
    Container(ExprView),
    Element(Box<JsxElementView>),
    Fragment(u64),
    Opaque(u64),
}

/// The texts of a sequence of strings.
pub open spec fn strings_view(v: Seq<String>) -> Seq<Seq<char>> {
    Seq::new(v.len(), |i: int| v[i]@)
}

pub open spec fn expr_view(e: Expr) -> ExprView
    decreases e,
{
    match e {
        Expr::Ident(name) => ExprView::Ident(name@),
        Expr::Str(value) => ExprView::Str(value@),
        Expr::Num(text) => ExprView::Num(text@),
        Expr::Member(obj, prop) => ExprView::Member(Box::new(expr_view(*obj)), prop@),
        Expr::Call(call) => ExprView::Call(call_view(call)),
        Expr::TaggedTpl(tpl) => ExprView::TaggedTpl(tagged_tpl_view(tpl)),
        Expr::Object(props) => ExprView::Object(props_view(props@)),
        Expr::JsxElement(element) => ExprView::JsxElement(Box::new(jsx_element_view(*element))),
        Expr::JsxFragment(handle) => ExprView::JsxFragment(handle),
        Expr::Opaque(handle) => ExprView::Opaque(handle),
    }
}

pub open spec fn exprs_view(v: Seq<Expr>) -> Seq<ExprView>
    decreases v,
{
    Seq::new(
        v.len(),
        |i: int|
            if 0 <= i < v.len() {
                expr_view(v[i])
            } else {
                ExprView::Opaque(0)
            },
    )
}

pub open spec fn call_view(call: CallExpr) -> CallExprView
    decreases call,
{
    CallExprView {
        callee: Box::new(expr_view(*call.callee)),
        args: args_view(call.args@),
        pos: call.pos,
    }
}

pub open spec fn arg_view(arg: ExprOrSpread) -> ExprOrSpreadView
    decreases arg,
{
    ExprOrSpreadView { spread: arg.spread, expr: expr_view(arg.expr) }
}

pub open spec fn args_view(v: Seq<ExprOrSpread>) -> Seq<ExprOrSpreadView>
    decreases v,
{
    Seq::new(
        v.len(),
        |i: int|
            if 0 <= i < v.len() {
                arg_view(v[i])
            } else {
                ExprOrSpreadView { spread: false, expr: ExprView::Opaque(0) }
            },
    )
}

pub open spec fn tagged_tpl_view(tpl: TaggedTpl) -> TaggedTplView
    decreases tpl,
{
    TaggedTplView {
        tag: Box::new(expr_view(*tpl.tag)),
        quasis: strings_view(tpl.quasis@),
        exprs: exprs_view(tpl.exprs@),
        pos: tpl.pos,
    }
}

pub open spec fn prop_view(prop: Prop) -> PropView
    decreases prop,
{
    match prop {
        Prop::KeyValue(key, value) => PropView::KeyValue(key@, expr_view(value)),
        Prop::Opaque(handle) => PropView::Opaque(handle),
    }
}

pub open spec fn props_view(v: Seq<Prop>) -> Seq<PropView>
    decreases v,
{
    Seq::new(
        v.len(),
        |i: int|
            if 0 <= i < v.len() {
                prop_view(v[i])
            } else {
                PropView::Opaque(0)
            },
    )
}

pub open spec fn jsx_element_view(element: JsxElement) -> JsxElementView
    decreases element,
{
    JsxElementView {
        name: element.name@,
        attrs: jsx_attrs_view(element.attrs@),
        self_closing: element.self_closing,
        children: jsx_children_view(element.children@),
    }
}

pub open spec fn jsx_attr_value_view(value: JsxAttrValue) -> JsxAttrValueView
    decreases value,
{
    match value {
        JsxAttrValue::Str(text) => JsxAttrValueView::Str(text@),
        JsxAttrValue::Container(expr) => JsxAttrValueView::Container(expr_view(expr)),
        JsxAttrValue::Empty => JsxAttrValueView::Empty,
        JsxAttrValue::Element(element) => JsxAttrValueView::Element(
            Box::new(jsx_element_view(*element)),
        ),
        JsxAttrValue::Fragment(handle) => JsxAttrValueView::Fragment(handle),
    }
}

pub open spec fn jsx_attr_view(attr: JsxAttr) -> JsxAttrView
    decreases attr,
{
    match attr {
        JsxAttr::Named(name, Some(value)) => JsxAttrView::Named(
            name@,
            Some(jsx_attr_value_view(value)),
        ),
        JsxAttr::Named(name, None) => JsxAttrView::Named(name@, None),
        JsxAttr::Spread(handle) => JsxAttrView::Spread(handle),
    }
}

pub open spec fn jsx_attrs_view(v: Seq<JsxAttr>) -> Seq<JsxAttrView>
    decreases v,
{
    Seq::new(
        v.len(),
        |i: int|
            if 0 <= i < v.len() {
                jsx_attr_view(v[i])
            } else {
                JsxAttrView::Spread(0)
            },
    )
}

pub open spec fn jsx_child_view(child: JsxChild) -> JsxChildView
    decreases child,
{
    match child {
        JsxChild::Text(text) => JsxChildView::Text(text@),
        JsxChild::Container(expr) => JsxChildView::Container(expr_view(expr)),
        JsxChild::Element(element) => JsxChildView::Element(Box::new(jsx_element_view(*element))),
        JsxChild::Fragment(handle) => JsxChildView::Fragment(handle),
        JsxChild::Opaque(handle) => JsxChildView::Opaque(handle),
    }
}

pub open spec fn jsx_children_view(v: Seq<JsxChild>) -> Seq<JsxChildView>
    decreases v,
{
    Seq::new(
        v.len(),
        |i: int|
            if 0 <= i < v.len() {
                jsx_child_view(v[i])
            } else {
                JsxChildView::Opaque(0)
            },
    )
}

impl View for Expr {
    type V = ExprView;

    open spec fn view(&self) -> ExprView {
        expr_view(*self)
    }
}

impl View for MemberProp {
    type V = MemberPropView;

    open spec fn view(&self) -> MemberPropView {
        match self {
            MemberProp::Ident(name) => MemberPropView::Ident(name@),
            MemberProp::Opaque(handle) => MemberPropView::Opaque(*handle),
        }
    }
}

impl View for CallExpr {
    type V = CallExprView;

    open spec fn view(&self) -> CallExprView {
        call_view(*self)
    }
}

impl View for ExprOrSpread {
    type V = ExprOrSpreadView;

    open spec fn view(&self) -> ExprOrSpreadView {
        arg_view(*self)
    }
}

impl View for TaggedTpl {
    type V = TaggedTplView;

    open spec fn view(&self) -> TaggedTplView {
        tagged_tpl_view(*self)
    }
}

impl View for Prop {
    type V = PropView;

    open spec fn view(&self) -> PropView {
        prop_view(*self)
    }
}

impl View for PropName {
    type V = PropNameView;

    open spec fn view(&self) -> PropNameView {
        match self {
            PropName::Ident(name) => PropNameView::Ident(name@),
            PropName::Str(value) => PropNameView::Str(value@),
            PropName::Num(text) => PropNameView::Num(text@),
            PropName::Opaque(handle) => PropNameView::Opaque(*handle),
        }
    }
}

impl View for JsxElement {
    type V = JsxElementView;

    open spec fn view(&self) -> JsxElementView {
        jsx_element_view(*self)
    }
}

impl View for JsxElementName {
    type V = JsxElementNameView;

    open spec fn view(&self) -> JsxElementNameView {
        match self {
            JsxElementName::Ident(name) => JsxElementNameView::Ident(name@),
            JsxElementName::Member(object, property) => JsxElementNameView::Member(
                object@,
                property@,
            ),
            JsxElementName::Opaque(handle) => JsxElementNameView::Opaque(*handle),
        }
    }
}

impl View for JsxAttr {
    type V = JsxAttrView;

    open spec fn view(&self) -> JsxAttrView {
        jsx_attr_view(*self)
    }
}

impl View for JsxAttrName {
    type V = JsxAttrNameView;

    open spec fn view(&self) -> JsxAttrNameView {
        match self {
            JsxAttrName::Ident(name) => JsxAttrNameView::Ident(name@),
            JsxAttrName::Namespaced(namespace, name) => JsxAttrNameView::Namespaced(
                namespace@,
                name@,
            ),
        }
    }
}

impl View for JsxAttrValue {
    type V = JsxAttrValueView;

    open spec fn view(&self) -> JsxAttrValueView {
        jsx_attr_value_view(*self)
    }
}

impl View for JsxChild {
    type V = JsxChildView;

    open spec fn view(&self) -> JsxChildView {
        jsx_child_view(*self)
    }
}

/// A copy of a list of strings.
pub fn copy_strings(v: &Vec<String>) -> (r: Vec<String>)
    ensures
        strings_view(r@) == strings_view(v@),
{
    let mut out: Vec<String> = Vec::new();
    let mut i: usize = 0;
    while i < v.len()
        invariant
            i <= v.len(),
            out@.len() == i,
            forall|j: int| 0 <= j < i ==> out@[j]@ == v@[j]@,
        decreases v.len() - i,
    {
        out.push(v[i].clone());
        i = i + 1;
    }
    assert(strings_view(out@) =~= strings_view(v@));
    out
}

fn copy_expr(e: &Expr) -> (r: Expr)
    ensures
        r@ == e@,
    decreases e,
{
    match e {
        Expr::Ident(name) => Expr::Ident(name.clone()),
        Expr::Str(value) => Expr::Str(value.clone()),
        Expr::Num(text) => Expr::Num(text.clone()),
        Expr::Member(obj, prop) => Expr::Member(Box::new(copy_expr(obj)), prop.clone()),
        Expr::Call(call) => Expr::Call(copy_call(call)),
        Expr::TaggedTpl(tpl) => Expr::TaggedTpl(copy_tagged_tpl(tpl)),
        Expr::Object(props) => Expr::Object(copy_props(props)),
        Expr::JsxElement(element) => Expr::JsxElement(Box::new(copy_jsx_element(element))),
        Expr::JsxFragment(handle) => Expr::JsxFragment(*handle),
        Expr::Opaque(handle) => Expr::Opaque(*handle),
    }
}

fn copy_exprs(v: &Vec<Expr>) -> (r: Vec<Expr>)
    ensures
        exprs_view(r@) == exprs_view(v@),
    decreases v,
{
    let mut out: Vec<Expr> = Vec::new();
    let mut i: usize = 0;
    while i < v.len()
        invariant
            i <= v.len(),
            out@.len() == i,
            forall|j: int| 0 <= j < i ==> expr_view(out@[j]) == expr_view(v@[j]),
        decreases v.len() - i,
    {
        out.push(copy_expr(&v[i]));
        i = i + 1;
    }
    assert(exprs_view(out@) =~= exprs_view(v@));
    out
}

fn copy_call(call: &CallExpr) -> (r: CallExpr)
    ensures
        r@ == call@,
    decreases call,
{
    let mut args: Vec<ExprOrSpread> = Vec::new();
    let mut i: usize = 0;
    while i < call.args.len()
        invariant
            i <= call.args.len(),
            args@.len() == i,
            forall|j: int| 0 <= j < i ==> arg_view(args@[j]) == arg_view(call.args@[j]),
        decreases call.args.len() - i,
    {
        let arg = &call.args[i];
        args.push(ExprOrSpread { spread: arg.spread, expr: copy_expr(&arg.expr) });
        i = i + 1;
    }
    assert(args_view(args@) =~= args_view(call.args@));
    CallExpr { callee: Box::new(copy_expr(&call.callee)), args, pos: call.pos }
}

fn copy_tagged_tpl(tpl: &TaggedTpl) -> (r: TaggedTpl)
    ensures
        r@ == tpl@,
    decreases tpl,
{
    TaggedTpl {
        tag: Box::new(copy_expr(&tpl.tag)),
        quasis: copy_strings(&tpl.quasis),
        exprs: copy_exprs(&tpl.exprs),
        pos: tpl.pos,
    }
}

fn copy_props(v: &Vec<Prop>) -> (r: Vec<Prop>)
    ensures
        props_view(r@) == props_view(v@),
    decreases v,
{
    let mut out: Vec<Prop> = Vec::new();
    let mut i: usize = 0;
    while i < v.len()
        invariant
            i <= v.len(),
            out@.len() == i,
            forall|j: int| 0 <= j < i ==> prop_view(out@[j]) == prop_view(v@[j]),
        decreases v.len() - i,
    {
        let prop = match &v[i] {
            Prop::KeyValue(key, value) => Prop::KeyValue(key.clone(), copy_expr(value)),
            Prop::Opaque(handle) => Prop::Opaque(*handle),
        };
        out.push(prop);
        i = i + 1;
    }
    assert(props_view(out@) =~= props_view(v@));
    out
}

fn copy_jsx_element(element: &JsxElement) -> (r: JsxElement)
    ensures
        r@ == element@,
    decreases element,
{
    JsxElement {
        name: element.name.clone(),
        attrs: copy_jsx_attrs(&element.attrs),
        self_closing: element.self_closing,
        children: copy_jsx_children(&element.children),
    }
}

fn copy_jsx_attrs(v: &Vec<JsxAttr>) -> (r: Vec<JsxAttr>)
    ensures
        jsx_attrs_view(r@) == jsx_attrs_view(v@),
    decreases v,
{
    let mut out: Vec<JsxAttr> = Vec::new();
    let mut i: usize = 0;
    while i < v.len()
        invariant
            i <= v.len(),
            out@.len() == i,
            forall|j: int| 0 <= j < i ==> jsx_attr_view(out@[j]) == jsx_attr_view(v@[j]),
        decreases v.len() - i,
    {
        let attr = match &v[i] {
            JsxAttr::Named(name, Some(value)) => {
                let copied = match value {
                    JsxAttrValue::Str(text) => JsxAttrValue::Str(text.clone()),
                    JsxAttrValue::Container(expr) => JsxAttrValue::Container(copy_expr(expr)),
                    JsxAttrValue::Empty => JsxAttrValue::Empty,
                    JsxAttrValue::Element(element) => JsxAttrValue::Element(
                        Box::new(copy_jsx_element(element)),
                    ),
                    JsxAttrValue::Fragment(handle) => JsxAttrValue::Fragment(*handle),
                };
                JsxAttr::Named(name.clone(), Some(copied))
            },
            JsxAttr::Named(name, None) => JsxAttr::Named(name.clone(), None),
            JsxAttr::Spread(handle) => JsxAttr::Spread(*handle),
        };
        out.push(attr);
        i = i + 1;
    }
    assert(jsx_attrs_view(out@) =~= jsx_attrs_view(v@));
    out
}

fn copy_jsx_children(v: &Vec<JsxChild>) -> (r: Vec<JsxChild>)
    ensures
        jsx_children_view(r@) == jsx_children_view(v@),
    decreases v,
{
    let mut out: Vec<JsxChild> = Vec::new();
    let mut i: usize = 0;
    while i < v.len()
        invariant
            i <= v.len(),
            out@.len() == i,
            forall|j: int| 0 <= j < i ==> jsx_child_view(out@[j]) == jsx_child_view(v@[j]),
        decreases v.len() - i,
    {
        let child = match &v[i] {
            JsxChild::Text(text) => JsxChild::Text(text.clone()),
            JsxChild::Container(expr) => JsxChild::Container(copy_expr(expr)),
            JsxChild::Element(element) => JsxChild::Element(Box::new(copy_jsx_element(element))),
            JsxChild::Fragment(handle) => JsxChild::Fragment(*handle),
            JsxChild::Opaque(handle) => JsxChild::Opaque(*handle),
        };
        out.push(child);
        i = i + 1;
    }
    assert(jsx_children_view(out@) =~= jsx_children_view(v@));
    out
}

impl Clone for MemberProp {
    fn clone(&self) -> (r: Self)
        ensures
            r@ == self@,
    {
        match self {
            MemberProp::Ident(name) => MemberProp::Ident(name.clone()),
            MemberProp::Opaque(handle) => MemberProp::Opaque(*handle),
        }
    }
}

impl Clone for PropName {
    fn clone(&self) -> (r: Self)
        ensures
            r@ == self@,
    {
        match self {
            PropName::Ident(name) => PropName::Ident(name.clone()),
            PropName::Str(value) => PropName::Str(value.clone()),
            PropName::Num(text) => PropName::Num(text.clone()),
            PropName::Opaque(handle) => PropName::Opaque(*handle),
        }
    }
}

impl Clone for JsxElementName {
    fn clone(&self) -> (r: Self)
        ensures
            r@ == self@,
    {
        match self {
            JsxElementName::Ident(name) => JsxElementName::Ident(name.clone()),
            JsxElementName::Member(object, property) => JsxElementName::Member(
                object.clone(),
                property.clone(),
            ),
            JsxElementName::Opaque(handle) => JsxElementName::Opaque(*handle),
        }
    }
}

impl Clone for JsxAttrName {
    fn clone(&self) -> (r: Self)
        ensures
            r@ == self@,
    {
        match self {
            JsxAttrName::Ident(name) => JsxAttrName::Ident(name.clone()),
            JsxAttrName::Namespaced(namespace, name) => JsxAttrName::Namespaced(
                namespace.clone(),
                name.clone(),
            ),
        }
    }
}

impl Clone for Expr {
    fn clone(&self) -> (r: Self)
        ensures
            r@ == self@,
    {
        copy_expr(self)
    }
}

impl Clone for CallExpr {
    fn clone(&self) -> (r: Self)
        ensures
            r@ == self@,
    {
        copy_call(self)
    }
}

impl Clone for TaggedTpl {
    fn clone(&self) -> (r: Self)
        ensures
            r@ == self@,
    {
        copy_tagged_tpl(self)
    }
}

impl Clone for JsxElement {
    fn clone(&self) -> (r: Self)
        ensures
            r@ == self@,
    {
        copy_jsx_element(self)
    }
}

} // verus!
