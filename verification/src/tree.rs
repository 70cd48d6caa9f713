//! An in-memory mapping tree and the driver that streams it through a
//! [`MappingVisitor`] in the protocol's order, honouring skip returns and
//! the multi-pass restart contract.

use vstd::prelude::*;

use crate::visitor::{end_of_pass_outcome, MappingVisitor, PassOutcome, VisitResult};
use crate::MappedElementKind;

verus! {

/// One destination name: the index into the destination namespace list,
/// and the name in that namespace.
pub struct DstName {
    /// The destination namespace index.
    pub namespace: usize,
    /// The name in that namespace.
    pub name: String,
}

/// One destination descriptor: the index into the destination namespace
/// list, and the descriptor in that namespace.
pub struct DstDesc {
    /// The destination namespace index.
    pub namespace: usize,
    /// The descriptor in that namespace.
    pub desc: String,
}

/// A method argument mapping.
pub struct ArgMapping {
    /// The argument's position in the method's signature.
    pub arg_position: i32,
    /// The argument's local variable slot index.
    pub lv_index: i32,
    /// The source name, where one is known.
    pub src_name: Option<String>,
    /// The destination names.
    pub dst_names: Vec<DstName>,
    /// The comment, where one is present.
    pub comment: Option<String>,
}

/// A method local variable mapping.
pub struct VarMapping {
    /// The row in the local variable table, or a negative value where
    /// unknown.
    pub lvt_row_index: i32,
    /// The variable's local variable slot index.
    pub lv_index: i32,
    /// The bytecode offset at which the variable's scope starts.
    pub start_op_idx: i32,
    /// The source name, where one is known.
    pub src_name: Option<String>,
    /// The destination names.
    pub dst_names: Vec<DstName>,
    /// The comment, where one is present.
    pub comment: Option<String>,
}

/// A field mapping.
pub struct FieldMapping {
    /// The source name.
    pub src_name: String,
    /// The source descriptor, where one is known.
    pub src_desc: Option<String>,
    /// The destination names.
    pub dst_names: Vec<DstName>,
    /// The destination descriptors.
    pub dst_descs: Vec<DstDesc>,
    /// The comment, where one is present.
    pub comment: Option<String>,
}

/// A method mapping.
pub struct MethodMapping {
    /// The source name.
    pub src_name: String,
    /// The source descriptor, where one is known.
    pub src_desc: Option<String>,
    /// The destination names.
    pub dst_names: Vec<DstName>,
    /// The destination descriptors.
    pub dst_descs: Vec<DstDesc>,
    /// The argument mappings.
    pub args: Vec<ArgMapping>,
    /// The local variable mappings.
    pub vars: Vec<VarMapping>,
    /// The comment, where one is present.
    pub comment: Option<String>,
}

/// A class mapping.
pub struct ClassMapping {
    /// The source name, in the internal spelling.
    pub src_name: String,
    /// The destination names.
    pub dst_names: Vec<DstName>,
    /// The field mappings.
    pub fields: Vec<FieldMapping>,
    /// The method mappings.
    pub methods: Vec<MethodMapping>,
    /// The comment, where one is present.
    pub comment: Option<String>,
}

/// A whole set of mappings: the namespace list, header metadata and the
/// classes.
pub struct MappingTree {
    /// The source namespace name.
    pub src_namespace: String,
    /// The destination namespace names, in column order.
    pub dst_namespaces: Vec<String>,
    /// Header metadata properties, in order.
    pub metadata: Vec<(String, String)>,
    /// The class mappings, in order.
    pub classes: Vec<ClassMapping>,
}

/// Visits the destination names of one element.
fn visit_dst_names<V: MappingVisitor>(
    visitor: &mut V,
    kind: MappedElementKind,
    dst_names: &Vec<DstName>,
) -> (r: VisitResult<()>)
{
    let mut i: usize = 0;
    while i < dst_names.len()
        decreases dst_names.len() - i,
    {
        let dst = &dst_names[i];
        visitor.visit_dst_name(kind, dst.namespace, dst.name.as_str())?;
        i = i + 1;
    }
    Ok(())
}

/// Visits the destination descriptors of one element.
fn visit_dst_descs<V: MappingVisitor>(
    visitor: &mut V,
    kind: MappedElementKind,
    dst_descs: &Vec<DstDesc>,
) -> (r: VisitResult<()>)
{
    let mut i: usize = 0;
    while i < dst_descs.len()
        decreases dst_descs.len() - i,
    {
        let dst = &dst_descs[i];
        visitor.visit_dst_desc(kind, dst.namespace, dst.desc.as_str())?;
        i = i + 1;
    }
    Ok(())
}

/// Visits the comment of one element, where one is present.
fn visit_comment_opt<V: MappingVisitor>(
    visitor: &mut V,
    kind: MappedElementKind,
    comment: &Option<String>,
) -> (r: VisitResult<()>)
{
    match comment {
        Some(text) => visitor.visit_comment(kind, text.as_str()),
        None => Ok(()),
    }
}

/// Visits one method argument: the begin callback, then, unless skipped,
/// its destination names, its content checkpoint and its comment.
fn visit_arg<V: MappingVisitor>(visitor: &mut V, arg: &ArgMapping) -> (r: VisitResult<()>)
{
    let src_name: Option<&str> = match &arg.src_name {
        Some(n) => Some(n.as_str()),
        None => None,
    };
    if !visitor.visit_method_arg(arg.arg_position, arg.lv_index, src_name)? {
        return Ok(());
    }
    visit_dst_names(visitor, MappedElementKind::MethodArg, &arg.dst_names)?;
    if !visitor.visit_element_content(MappedElementKind::MethodArg)? {
        return Ok(());
    }
    visit_comment_opt(visitor, MappedElementKind::MethodArg, &arg.comment)
}

/// Visits one method local variable: the begin callback, then, unless
/// skipped, its destination names, its content checkpoint and its comment.
fn visit_var<V: MappingVisitor>(visitor: &mut V, var: &VarMapping) -> (r: VisitResult<()>)
{
    let src_name: Option<&str> = match &var.src_name {
        Some(n) => Some(n.as_str()),
        None => None,
    };
    if !visitor.visit_method_var(var.lvt_row_index, var.lv_index, var.start_op_idx, src_name)? {
        return Ok(());
    }
    visit_dst_names(visitor, MappedElementKind::MethodVar, &var.dst_names)?;
    if !visitor.visit_element_content(MappedElementKind::MethodVar)? {
        return Ok(());
    }
    visit_comment_opt(visitor, MappedElementKind::MethodVar, &var.comment)
}

/// Visits one field: the begin callback, then, unless skipped, its
/// destination names and descriptors, its content checkpoint and its
/// comment.
fn visit_field<V: MappingVisitor>(visitor: &mut V, field: &FieldMapping) -> (r: VisitResult<()>)
{
    let src_desc: Option<&str> = match &field.src_desc {
        Some(d) => Some(d.as_str()),
        None => None,
    };
    if !visitor.visit_field(field.src_name.as_str(), src_desc)? {
        return Ok(());
    }
    visit_dst_names(visitor, MappedElementKind::Field, &field.dst_names)?;
    visit_dst_descs(visitor, MappedElementKind::Field, &field.dst_descs)?;
    if !visitor.visit_element_content(MappedElementKind::Field)? {
        return Ok(());
    }
    visit_comment_opt(visitor, MappedElementKind::Field, &field.comment)
}

/// Visits one method: the begin callback, then, unless skipped, its
/// destination names and descriptors, its content checkpoint, its
/// arguments, its local variables and its comment.
fn visit_method<V: MappingVisitor>(visitor: &mut V, method: &MethodMapping) -> (r: VisitResult<()>)
{
    let src_desc: Option<&str> = match &method.src_desc {
        Some(d) => Some(d.as_str()),
        None => None,
    };
    if !visitor.visit_method(method.src_name.as_str(), src_desc)? {
        return Ok(());
    }
    visit_dst_names(visitor, MappedElementKind::Method, &method.dst_names)?;
    visit_dst_descs(visitor, MappedElementKind::Method, &method.dst_descs)?;
    if !visitor.visit_element_content(MappedElementKind::Method)? {
        return Ok(());
    }
    let mut i: usize = 0;
    while i < method.args.len()
        decreases method.args.len() - i,
    {
        visit_arg(visitor, &method.args[i])?;
        i = i + 1;
    }
    let mut j: usize = 0;
    while j < method.vars.len()
        decreases method.vars.len() - j,
    {
        visit_var(visitor, &method.vars[j])?;
        j = j + 1;
    }
    visit_comment_opt(visitor, MappedElementKind::Method, &method.comment)
}

/// Visits one class: the begin callback, then, unless skipped, its
/// destination names, its content checkpoint, its fields, its methods and
/// its comment. A skip at the begin callback prevents every one of those
/// callbacks for the class; the caller proceeds with the next class.
fn visit_class<V: MappingVisitor>(visitor: &mut V, class: &ClassMapping) -> (r: VisitResult<()>)
{
    if !visitor.visit_class(class.src_name.as_str())? {
        return Ok(());
    }
    visit_dst_names(visitor, MappedElementKind::Class, &class.dst_names)?;
    if !visitor.visit_element_content(MappedElementKind::Class)? {
        return Ok(());
    }
    let mut i: usize = 0;
    while i < class.fields.len()
        decreases class.fields.len() - i,
    {
        visit_field(visitor, &class.fields[i])?;
        i = i + 1;
    }
    let mut j: usize = 0;
    while j < class.methods.len()
        decreases class.methods.len() - j,
    {
        visit_method(visitor, &class.methods[j])?;
        j = j + 1;
    }
    visit_comment_opt(visitor, MappedElementKind::Class, &class.comment)
}

/// Runs one full visitation pass over the tree: the header with its
/// namespaces and metadata unless the header is skipped, then every class
/// unless the content is skipped, then the end-of-pass callback.
///
/// Returns what the end-of-pass callback returned: `true` where the pass
/// was final, `false` where the consumer requests another pass over the
/// same data. The first error of any callback aborts the pass and is
/// handed back unchanged.
pub fn run_pass<V: MappingVisitor>(tree: &MappingTree, visitor: &mut V) -> (r: VisitResult<bool>)
{
    if visitor.visit_header()? {
        let mut dsts: Vec<&str> = Vec::new();
        let mut i: usize = 0;
        while i < tree.dst_namespaces.len()
            decreases tree.dst_namespaces.len() - i,
        {
            dsts.push(tree.dst_namespaces[i].as_str());
            i = i + 1;
        }
        visitor.visit_namespaces(tree.src_namespace.as_str(), dsts.as_slice())?;

        let mut m: usize = 0;
        while m < tree.metadata.len()
            decreases tree.metadata.len() - m,
        {
            let entry = &tree.metadata[m];
            visitor.visit_metadata(entry.0.as_str(), entry.1.as_str())?;
            m = m + 1;
        }
    }
    if visitor.visit_content()? {
        let mut c: usize = 0;
        while c < tree.classes.len()
            decreases tree.classes.len() - c,
        {
            visit_class(visitor, &tree.classes[c])?;
            c = c + 1;
        }
    }
    visitor.visit_end()
}

/// Drives a full visitation: one pass, repeated while the consumer both
/// requests and is entitled to another one, up to `max_passes` passes in
/// all.
///
/// A restart request from a consumer that did not declare
/// [`MappingFlag::NeedsMultiplePasses`](crate::visitor::MappingFlag::NeedsMultiplePasses)
/// fails fast with
/// [`VisitError::UnsupportedMultiplePasses`](crate::visitor::VisitError::UnsupportedMultiplePasses)
/// rather than silently finishing or silently looping. Returns `Ok(true)`
/// where a pass was final, and `Ok(false)` where the pass budget ran out
/// with the consumer still entitled to another pass.
pub fn accept<V: MappingVisitor>(tree: &MappingTree, visitor: &mut V, max_passes: usize) -> (r:
    VisitResult<bool>)
{
    let mut passes: usize = 0;
    while passes < max_passes
        decreases max_passes - passes,
    {
        let pass_final = run_pass(tree, visitor)?;
        let flags = visitor.flags();
        match end_of_pass_outcome(pass_final, &flags)? {
            PassOutcome::Finished => {
                return Ok(true);
            },
            PassOutcome::RunAgain => {},
        }
        passes = passes + 1;
    }
    Ok(false)
}

} // verus!
