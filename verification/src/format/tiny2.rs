//! The Tiny v2 text writer, the reference consumer of the visitor protocol.

use vstd::pervasive::VecAdditionalExecFns;
use vstd::prelude::*;
use vstd::string::StringExecFns;

use crate::text::{push_char, push_chars, push_decimal, spec_decimal};
use crate::visitor::{MappingFlag, MappingFlags, MappingVisitor, VisitError, VisitResult};
use crate::MappedElementKind;

verus! {

/// Each item of `items` prefixed by a tab, in order.
pub open spec fn spec_tabbed(items: Seq<Seq<char>>) -> Seq<char>
    decreases items.len(),
{
    if items.len() == 0 {
        Seq::empty()
    } else {
        spec_tabbed(items.drop_last()) + seq!['\t'] + items.last()
    }
}

/// `n` tab characters.
pub open spec fn spec_tabs(n: nat) -> Seq<char>
    decreases n,
{
    if n == 0 {
        Seq::empty()
    } else {
        spec_tabs((n - 1) as nat) + seq!['\t']
    }
}

/// A pending destination name, or nothing where none was visited.
pub open spec fn spec_opt_name(name: Option<Seq<char>>) -> Seq<char> {
    match name {
        Some(n) => n,
        None => Seq::empty(),
    }
}

/// The flush of the per-element scratch buffer: one tab per destination
/// namespace, followed by the accumulated name or by nothing, so that a
/// missing name becomes an empty field, never an omitted one.
pub open spec fn spec_flush(dst_names: Seq<Option<Seq<char>>>) -> Seq<char>
    decreases dst_names.len(),
{
    if dst_names.len() == 0 {
        Seq::empty()
    } else {
        spec_flush(dst_names.drop_last()) + seq!['\t'] + spec_opt_name(dst_names.last())
    }
}

/// The header record: `tiny`, the format version, the source namespace and
/// the destination namespaces, tab-separated and newline-terminated.
pub open spec fn spec_header_line(src: Seq<char>, dsts: Seq<Seq<char>>) -> Seq<char> {
    seq!['t', 'i', 'n', 'y', '\t', 'v', '2', '\t', '0', '\t'] + src + spec_tabbed(dsts)
        + seq!['\n']
}

/// The start of a class record: `c`, a tab and the source name. The
/// destination names and the newline follow at the element content
/// checkpoint.
pub open spec fn spec_class_start(src_name: Seq<char>) -> Seq<char> {
    seq!['c', '\t'] + src_name
}

/// The start of a field or method record (`tag` is `f` or `m`), nested one
/// tab: the source descriptor, then the source name.
pub open spec fn spec_member_start(tag: char, src_desc: Seq<char>, src_name: Seq<char>) -> Seq<
    char,
> {
    seq!['\t'] + seq![tag] + seq!['\t'] + src_desc + seq!['\t'] + src_name
}

/// The start of a method argument record, nested two tabs: the local
/// variable index, then the source name or an empty field.
pub open spec fn spec_arg_start(lv_index: int, src_name: Option<Seq<char>>) -> Seq<char> {
    seq!['\t', '\t', 'p', '\t'] + spec_decimal(lv_index) + seq!['\t'] + spec_opt_name(src_name)
}

/// The start of a method local variable record, nested two tabs: the local
/// variable index, the starting bytecode offset, the local variable table
/// row index clamped to a minimum of -1, then the source name or an empty
/// field.
pub open spec fn spec_var_start(
    lvt_row_index: int,
    lv_index: int,
    start_op_idx: int,
    src_name: Option<Seq<char>>,
) -> Seq<char> {
    seq!['\t', '\t', 'v', '\t'] + spec_decimal(lv_index) + seq!['\t'] + spec_decimal(start_op_idx)
        + seq!['\t'] + spec_decimal(if lvt_row_index < -1 {
        -1int
    } else {
        lvt_row_index
    }) + seq!['\t'] + spec_opt_name(src_name)
}

/// A comment record: as many tabs as the commented element's nesting level,
/// one more tab, `c`, a tab, and the comment text, newline-terminated.
pub open spec fn spec_comment_line(kind: MappedElementKind, comment: Seq<char>) -> Seq<char> {
    spec_tabs(kind.spec_level()) + seq!['\t', 'c', '\t'] + comment + seq!['\n']
}

/// A scratch buffer with one empty destination-name slot per namespace.
fn empty_dst_names(n: usize) -> (r: Vec<Option<String>>)
    ensures
        r.deep_view().len() == n,
        forall|i: int| 0 <= i < n ==> r.deep_view()[i] is None,
{
    let mut r: Vec<Option<String>> = Vec::new();
    let mut i: usize = 0;
    while i < n
        invariant
            i <= n,
            r.deep_view().len() == i,
            forall|j: int| 0 <= j < i ==> r.deep_view()[j] is None,
        decreases n - i,
    {
        let ghost prev = r.deep_view();
        r.push(None);
        proof {
            assert(r.deep_view() =~= prev.push(None));
        }
        i = i + 1;
    }
    r
}

/// A Tiny v2 writer as a [`MappingVisitor`] that appends the text layout to
/// an owned string buffer.
///
/// The writer requires a source descriptor for every field and method,
/// because the field and method rows embed the descriptor, and requires
/// uniqueness because it performs no deduplication. Its one piece of
/// mutable state besides the output is the per-pass buffer of destination
/// names, sized once per pass and cleared after every checkpoint flush.
///
/// Comment text is emitted verbatim: escaping of tabs or newlines inside a
/// comment is not performed.
pub struct Tiny2Writer {
    write: String,
    dst_names: Vec<Option<String>>,
}

impl Tiny2Writer {
    /// Everything written so far, including whatever the buffer held when
    /// the writer was created.
    pub closed spec fn spec_output(self) -> Seq<char> {
        self.write@
    }

    /// The per-element scratch buffer: one pending destination name per
    /// destination namespace.
    pub closed spec fn spec_dst_names(self) -> Seq<Option<Seq<char>>> {
        self.dst_names.deep_view()
    }

    /// Creates a new Tiny v2 writer appending to the given buffer.
    pub fn new(write: String) -> (r: Tiny2Writer)
        ensures
            r.spec_output() == write@,
            r.spec_dst_names().len() == 0,
    {
        let r = Tiny2Writer { write, dst_names: Vec::new() };
        proof {
            assert(r.spec_dst_names() =~= Seq::<Option<Seq<char>>>::empty());
        }
        r
    }

    /// Hands the output buffer back.
    pub fn into_inner(self) -> (r: String)
        ensures
            r@ == self.spec_output(),
    {
        self.write
    }

    fn write_tab(&mut self)
        ensures
            final(self).spec_output() == old(self).spec_output() + seq!['\t'],
            final(self).spec_dst_names() == old(self).spec_dst_names(),
    {
        push_char(&mut self.write, '\t');
    }

    fn writeln(&mut self)
        ensures
            final(self).spec_output() == old(self).spec_output() + seq!['\n'],
            final(self).spec_dst_names() == old(self).spec_dst_names(),
    {
        push_char(&mut self.write, '\n');
    }
}

impl MappingVisitor for Tiny2Writer {
    fn flags(&self) -> (r: MappingFlags)
        ensures
            forall|f: MappingFlag| #[trigger]
                r.spec_contains(f) <==> (f == MappingFlag::NeedsHeaderMetadata || f
                    == MappingFlag::NeedsUniqueness || f == MappingFlag::NeedsSrcFieldDesc || f
                    == MappingFlag::NeedsSrcMethodDesc),
    {
        MappingFlags::empty().with(MappingFlag::NeedsHeaderMetadata).with(
            MappingFlag::NeedsUniqueness,
        ).with(MappingFlag::NeedsSrcFieldDesc).with(MappingFlag::NeedsSrcMethodDesc)
    }

    fn reset(&mut self)
        ensures
            *final(self) == *old(self),
    {
    }

    fn visit_header(&mut self) -> (r: VisitResult<bool>)
        ensures
            r == Ok::<bool, VisitError>(true),
            *final(self) == *old(self),
    {
        Ok(true)
    }

    fn visit_namespaces(&mut self, src_namespace: &str, dst_namespaces: &[&str]) -> (r: VisitResult<
        (),
    >)
        ensures
            r == Ok::<(), VisitError>(()),
            final(self).spec_output() == old(self).spec_output() + spec_header_line(
                src_namespace@,
                dst_namespaces.deep_view(),
            ),
            final(self).spec_dst_names().len() == dst_namespaces@.len(),
            forall|i: int|
                0 <= i < dst_namespaces@.len() ==> final(self).spec_dst_names()[i] is None,
    {
        self.dst_names = empty_dst_names(dst_namespaces.len());

        let ghost start = self.write@;
        let ghost dsts = dst_namespaces.deep_view();
        let ghost cleared = self.dst_names.deep_view();
        push_chars(&mut self.write, ['t', 'i', 'n', 'y', '\t', 'v', '2', '\t', '0', '\t'].as_slice());
        self.write.append(src_namespace);

        let mut i: usize = 0;
        while i < dst_namespaces.len()
            invariant
                i <= dsts.len(),
                dsts.len() == dst_namespaces@.len(),
                dsts == dst_namespaces.deep_view(),
                self.dst_names.deep_view() == cleared,
                self.write@ == start + seq!['t', 'i', 'n', 'y', '\t', 'v', '2', '\t', '0', '\t']
                    + src_namespace@ + spec_tabbed(dsts.subrange(0, i as int)),
            decreases dsts.len() - i,
        {
            self.write_tab();
            self.write.append(dst_namespaces[i]);
            proof {
                let prefix = dsts.subrange(0, i as int + 1);
                assert(prefix.drop_last() =~= dsts.subrange(0, i as int));
                assert(prefix.last() == dsts[i as int]);
                assert(dsts[i as int] == dst_namespaces@[i as int]@);
                assert(spec_tabbed(prefix) == spec_tabbed(dsts.subrange(0, i as int)) + seq!['\t']
                    + dsts[i as int]);
            }
            i = i + 1;
        }
        proof {
            assert(dsts.subrange(0, dsts.len() as int) =~= dsts);
        }
        self.writeln();
        proof {
            assert(final(self).spec_output() =~= old(self).spec_output() + spec_header_line(
                src_namespace@,
                dsts,
            ));
        }
        Ok(())
    }

    fn visit_metadata(&mut self, key: &str, value: &str) -> (r: VisitResult<()>)
        ensures
            r == Ok::<(), VisitError>(()),
            *final(self) == *old(self),
    {
        Ok(())
    }

    fn visit_content(&mut self) -> (r: VisitResult<bool>)
        ensures
            r == Ok::<bool, VisitError>(true),
            *final(self) == *old(self),
    {
        Ok(true)
    }

    fn visit_class(&mut self, src_name: &str) -> (r: VisitResult<bool>)
        ensures
            r == Ok::<bool, VisitError>(true),
            final(self).spec_output() == old(self).spec_output() + spec_class_start(src_name@),
            final(self).spec_dst_names() == old(self).spec_dst_names(),
    {
        push_chars(&mut self.write, ['c', '\t'].as_slice());
        self.write.append(src_name);
        proof {
            assert(final(self).spec_output() =~= old(self).spec_output() + spec_class_start(
                src_name@,
            ));
        }
        Ok(true)
    }

    fn visit_field(&mut self, src_name: &str, src_desc: Option<&str>) -> (r: VisitResult<bool>)
        ensures
            src_desc is None ==> (r == Err::<bool, VisitError>(VisitError::MissingSrcDesc)
                && *final(self) == *old(self)),
            src_desc matches Some(desc) ==> (r == Ok::<bool, VisitError>(true)
                && final(self).spec_output() == old(self).spec_output() + spec_member_start(
                'f',
                desc@,
                src_name@,
            ) && final(self).spec_dst_names() == old(self).spec_dst_names()),
    {
        match src_desc {
            None => Err(VisitError::MissingSrcDesc),
            Some(desc) => {
                push_chars(&mut self.write, ['\t', 'f', '\t'].as_slice());
                self.write.append(desc);
                self.write_tab();
                self.write.append(src_name);
                proof {
                    assert(final(self).spec_output() =~= old(self).spec_output()
                        + spec_member_start('f', desc@, src_name@));
                }
                Ok(true)
            },
        }
    }

    fn visit_method(&mut self, src_name: &str, src_desc: Option<&str>) -> (r: VisitResult<bool>)
        ensures
            src_desc is None ==> (r == Err::<bool, VisitError>(VisitError::MissingSrcDesc)
                && *final(self) == *old(self)),
            src_desc matches Some(desc) ==> (r == Ok::<bool, VisitError>(true)
                && final(self).spec_output() == old(self).spec_output() + spec_member_start(
                'm',
                desc@,
                src_name@,
            ) && final(self).spec_dst_names() == old(self).spec_dst_names()),
    {
        match src_desc {
            None => Err(VisitError::MissingSrcDesc),
            Some(desc) => {
                push_chars(&mut self.write, ['\t', 'm', '\t'].as_slice());
                self.write.append(desc);
                self.write_tab();
                self.write.append(src_name);
                proof {
                    assert(final(self).spec_output() =~= old(self).spec_output()
                        + spec_member_start('m', desc@, src_name@));
                }
                Ok(true)
            },
        }
    }

    fn visit_method_arg(&mut self, arg_position: i32, lv_index: i32, src_name: Option<&str>) -> (r:
        VisitResult<bool>)
        ensures
            r == Ok::<bool, VisitError>(true),
            final(self).spec_output() == old(self).spec_output() + spec_arg_start(
                lv_index as int,
                src_name.deep_view(),
            ),
            final(self).spec_dst_names() == old(self).spec_dst_names(),
    {
        push_chars(&mut self.write, ['\t', '\t', 'p', '\t'].as_slice());
        push_decimal(&mut self.write, lv_index);
        self.write_tab();
        match src_name {
            Some(name) => {
                self.write.append(name);
            },
            None => {},
        }
        proof {
            assert(final(self).spec_output() =~= old(self).spec_output() + spec_arg_start(
                lv_index as int,
                src_name.deep_view(),
            ));
        }
        Ok(true)
    }

    fn visit_method_var(
        &mut self,
        lvt_row_index: i32,
        lv_index: i32,
        start_op_idx: i32,
        src_name: Option<&str>,
    ) -> (r: VisitResult<bool>)
        ensures
            r == Ok::<bool, VisitError>(true),
            final(self).spec_output() == old(self).spec_output() + spec_var_start(
                lvt_row_index as int,
                lv_index as int,
                start_op_idx as int,
                src_name.deep_view(),
            ),
            final(self).spec_dst_names() == old(self).spec_dst_names(),
    {
        push_chars(&mut self.write, ['\t', '\t', 'v', '\t'].as_slice());
        push_decimal(&mut self.write, lv_index);
        self.write_tab();
        push_decimal(&mut self.write, start_op_idx);
        self.write_tab();
        let clamped = if lvt_row_index < -1 {
            -1
        } else {
            lvt_row_index
        };
        push_decimal(&mut self.write, clamped);
        self.write_tab();
        match src_name {
            Some(name) => {
                self.write.append(name);
            },
            None => {},
        }
        proof {
            assert(final(self).spec_output() =~= old(self).spec_output() + spec_var_start(
                lvt_row_index as int,
                lv_index as int,
                start_op_idx as int,
                src_name.deep_view(),
            ));
        }
        Ok(true)
    }

    fn visit_end(&mut self) -> (r: VisitResult<bool>)
        ensures
            r == Ok::<bool, VisitError>(true),
            *final(self) == *old(self),
    {
        Ok(true)
    }

    fn visit_dst_name(
        &mut self,
        target_kind: MappedElementKind,
        namespace: usize,
        name: &str,
    ) -> (r: VisitResult<()>)
        ensures
            namespace < old(self).spec_dst_names().len() ==> (r == Ok::<(), VisitError>(())
                && final(self).spec_dst_names() == old(self).spec_dst_names().update(
                namespace as int,
                Some(name@),
            ) && final(self).spec_output() == old(self).spec_output()),
            namespace >= old(self).spec_dst_names().len() ==> (r == Err::<(), VisitError>(
                VisitError::DstNamespaceOutOfRange,
            ) && *final(self) == *old(self)),
    {
        if namespace < self.dst_names.len() {
            self.dst_names.set(namespace, Some(name.to_owned()));
            proof {
                assert(final(self).spec_dst_names() =~= old(self).spec_dst_names().update(
                    namespace as int,
                    Some(name@),
                ));
            }
            Ok(())
        } else {
            Err(VisitError::DstNamespaceOutOfRange)
        }
    }

    fn visit_dst_desc(
        &mut self,
        target_kind: MappedElementKind,
        namespace: usize,
        desc: &str,
    ) -> (r: VisitResult<()>)
        ensures
            r == Ok::<(), VisitError>(()),
            *final(self) == *old(self),
    {
        Ok(())
    }

    fn visit_element_content(&mut self, target_kind: MappedElementKind) -> (r: VisitResult<bool>)
        ensures
            r == Ok::<bool, VisitError>(true),
            final(self).spec_output() == old(self).spec_output() + spec_flush(
                old(self).spec_dst_names(),
            ) + seq!['\n'],
            final(self).spec_dst_names().len() == old(self).spec_dst_names().len(),
            forall|i: int|
                0 <= i < final(self).spec_dst_names().len() ==> final(self).spec_dst_names()[i]
                    is None,
    {
        let ghost start = self.write@;
        let ghost dst0 = self.dst_names.deep_view();
        let n = self.dst_names.len();
        let mut i: usize = 0;
        while i < n
            invariant
                i <= n,
                n == self.dst_names@.len(),
                self.dst_names.deep_view() == dst0,
                self.write@ == start + spec_flush(dst0.subrange(0, i as int)),
            decreases n - i,
        {
            self.write_tab();
            match &self.dst_names[i] {
                Some(dst_name) => {
                    self.write.append(dst_name.as_str());
                },
                None => {},
            }
            proof {
                let prefix = dst0.subrange(0, i as int + 1);
                assert(prefix.drop_last() =~= dst0.subrange(0, i as int));
                assert(prefix.last() == dst0[i as int]);
                assert(self.write@ =~= start + spec_flush(dst0.subrange(0, i as int + 1)));
            }
            i = i + 1;
        }
        proof {
            assert(dst0.subrange(0, dst0.len() as int) =~= dst0);
        }
        self.dst_names = empty_dst_names(n);
        self.writeln();
        Ok(true)
    }

    fn visit_comment(&mut self, target_kind: MappedElementKind, comment: &str) -> (r: VisitResult<
        (),
    >)
        ensures
            r == Ok::<(), VisitError>(()),
            final(self).spec_output() == old(self).spec_output() + spec_comment_line(
                target_kind,
                comment@,
            ),
            final(self).spec_dst_names() == old(self).spec_dst_names(),
    {
        let ghost start = self.write@;
        let level = target_kind.level();
        let mut j: u32 = 0;
        while j < level
            invariant
                j <= level,
                level == target_kind.spec_level(),
                self.dst_names.deep_view() == old(self).spec_dst_names(),
                self.write@ == start + spec_tabs(j as nat),
            decreases level - j,
        {
            self.write_tab();
            j = j + 1;
        }
        push_chars(&mut self.write, ['\t', 'c', '\t'].as_slice());
        self.write.append(comment);
        self.writeln();
        proof {
            assert(final(self).spec_output() =~= old(self).spec_output() + spec_comment_line(
                target_kind,
                comment@,
            ));
        }
        Ok(())
    }
}

} // verus!

use crate::tree::{ArgMapping, ClassMapping, DstDesc, DstName, FieldMapping, MappingTree, MethodMapping, VarMapping};

verus! {

/// A scratch buffer of `n` empty destination-name slots.
pub open spec fn spec_empty_slots(n: nat) -> Seq<Option<Seq<char>>> {
    Seq::new(n, |i: int| None)
}

/// The scratch buffer after one element's destination names: starting from
/// `slots`, each name stored at its namespace index, later names
/// overwriting earlier ones on the same index. A name whose index lies out
/// of range changes nothing here; the writer rejects it.
pub open spec fn spec_apply_dst_names(
    slots: Seq<Option<Seq<char>>>,
    dsts: Seq<DstName>,
) -> Seq<Option<Seq<char>>>
    decreases dsts.len(),
{
    if dsts.len() == 0 {
        slots
    } else {
        let prev = spec_apply_dst_names(slots, dsts.drop_last());
        let d = dsts.last();
        if d.namespace < slots.len() {
            prev.update(d.namespace as int, Some(d.name@))
        } else {
            prev
        }
    }
}

/// Applying destination names never changes the buffer's length.
proof fn lemma_apply_dst_names_len(slots: Seq<Option<Seq<char>>>, dsts: Seq<DstName>)
    ensures
        spec_apply_dst_names(slots, dsts).len() == slots.len(),
    decreases dsts.len(),
{
    if dsts.len() > 0 {
        lemma_apply_dst_names_len(slots, dsts.drop_last());
    }
}

/// Whether every destination name of one element lies within the `n`
/// destination namespaces of the pass.
pub open spec fn spec_dst_names_wf(n: nat, dsts: Seq<DstName>) -> bool {
    forall|i: int| 0 <= i < dsts.len() ==> (#[trigger] dsts[i]).namespace < n
}

/// Visits the destination names of one element on the Tiny v2 writer.
fn write_dst_names(w: &mut Tiny2Writer, kind: MappedElementKind, dsts: &Vec<DstName>) -> (r:
    VisitResult<()>)
    ensures
        r is Ok <==> spec_dst_names_wf(old(w).spec_dst_names().len() as nat, dsts@),
        r is Ok ==> final(w).spec_dst_names() == spec_apply_dst_names(
            old(w).spec_dst_names(),
            dsts@,
        ),
        r is Ok ==> final(w).spec_output() == old(w).spec_output(),
        r is Err ==> r == Err::<(), VisitError>(VisitError::DstNamespaceOutOfRange),
{
    let ghost slots0 = old(w).spec_dst_names();
    let mut i: usize = 0;
    while i < dsts.len()
        invariant
            i <= dsts@.len(),
            slots0 == old(w).spec_dst_names(),
            w.spec_output() == old(w).spec_output(),
            w.spec_dst_names() == spec_apply_dst_names(slots0, dsts@.subrange(0, i as int)),
            w.spec_dst_names().len() == slots0.len(),
            forall|j: int| 0 <= j < i ==> (#[trigger] dsts@[j]).namespace < slots0.len(),
        decreases dsts@.len() - i,
    {
        let dst = &dsts[i];
        let result = w.visit_dst_name(kind, dst.namespace, dst.name.as_str());
        proof {
            let prefix = dsts@.subrange(0, i as int + 1);
            assert(prefix.drop_last() =~= dsts@.subrange(0, i as int));
            assert(prefix.last() == dsts@[i as int]);
            lemma_apply_dst_names_len(slots0, prefix);
        }
        match result {
            Ok(u) => {},
            Err(e) => {
                proof {
                    assert(dsts@[i as int].namespace >= slots0.len());
                    assert(!spec_dst_names_wf(slots0.len() as nat, dsts@));
                }
                return Err(e);
            },
        }
        i = i + 1;
    }
    proof {
        assert(dsts@.subrange(0, dsts@.len() as int) =~= dsts@);
    }
    Ok(())
}

} // verus!

verus! {

/// One whole element record: its start, the flush of its destination names
/// over `n` empty slots, and the terminating newline.
pub open spec fn spec_element_record(start: Seq<char>, n: nat, dsts: Seq<DstName>) -> Seq<char> {
    start + spec_flush(spec_apply_dst_names(spec_empty_slots(n), dsts)) + seq!['\n']
}

/// The comment record of an element, or nothing where it has no comment.
pub open spec fn spec_opt_comment(kind: MappedElementKind, comment: Option<String>) -> Seq<char> {
    match comment {
        Some(text) => spec_comment_line(kind, text@),
        None => Seq::empty(),
    }
}

/// The full rendering of one method argument: its record and its comment.
pub open spec fn spec_arg_record(n: nat, arg: ArgMapping) -> Seq<char> {
    spec_element_record(
        spec_arg_start(arg.lv_index as int, arg.src_name.deep_view()),
        n,
        arg.dst_names@,
    ) + spec_opt_comment(MappedElementKind::MethodArg, arg.comment)
}

/// The full rendering of one method local variable: its record and its
/// comment.
pub open spec fn spec_var_record(n: nat, var: VarMapping) -> Seq<char> {
    spec_element_record(
        spec_var_start(
            var.lvt_row_index as int,
            var.lv_index as int,
            var.start_op_idx as int,
            var.src_name.deep_view(),
        ),
        n,
        var.dst_names@,
    ) + spec_opt_comment(MappedElementKind::MethodVar, var.comment)
}

/// The full rendering of one field: its record and its comment.
pub open spec fn spec_field_record(n: nat, field: FieldMapping) -> Seq<char> {
    spec_element_record(
        spec_member_start('f', spec_opt_name(field.src_desc.deep_view()), field.src_name@),
        n,
        field.dst_names@,
    ) + spec_opt_comment(MappedElementKind::Field, field.comment)
}

/// The renderings of a sequence of method arguments, in order.
pub open spec fn spec_arg_records(n: nat, args: Seq<ArgMapping>) -> Seq<char>
    decreases args.len(),
{
    if args.len() == 0 {
        Seq::empty()
    } else {
        spec_arg_records(n, args.drop_last()) + spec_arg_record(n, args.last())
    }
}

/// The renderings of a sequence of method local variables, in order.
pub open spec fn spec_var_records(n: nat, vars: Seq<VarMapping>) -> Seq<char>
    decreases vars.len(),
{
    if vars.len() == 0 {
        Seq::empty()
    } else {
        spec_var_records(n, vars.drop_last()) + spec_var_record(n, vars.last())
    }
}

/// The full rendering of one method: its record, its arguments, its local
/// variables and its comment.
pub open spec fn spec_method_record(n: nat, method: MethodMapping) -> Seq<char> {
    spec_element_record(
        spec_member_start('m', spec_opt_name(method.src_desc.deep_view()), method.src_name@),
        n,
        method.dst_names@,
    ) + spec_arg_records(n, method.args@) + spec_var_records(n, method.vars@) + spec_opt_comment(
        MappedElementKind::Method,
        method.comment,
    )
}

/// The renderings of a sequence of fields, in order.
pub open spec fn spec_field_records(n: nat, fields: Seq<FieldMapping>) -> Seq<char>
    decreases fields.len(),
{
    if fields.len() == 0 {
        Seq::empty()
    } else {
        spec_field_records(n, fields.drop_last()) + spec_field_record(n, fields.last())
    }
}

/// The renderings of a sequence of methods, in order.
pub open spec fn spec_method_records(n: nat, methods: Seq<MethodMapping>) -> Seq<char>
    decreases methods.len(),
{
    if methods.len() == 0 {
        Seq::empty()
    } else {
        spec_method_records(n, methods.drop_last()) + spec_method_record(n, methods.last())
    }
}

/// The full rendering of one class: its record, its fields, its methods and
/// its comment.
pub open spec fn spec_class_record(n: nat, class: ClassMapping) -> Seq<char> {
    spec_element_record(spec_class_start(class.src_name@), n, class.dst_names@)
        + spec_field_records(n, class.fields@) + spec_method_records(n, class.methods@)
        + spec_opt_comment(MappedElementKind::Class, class.comment)
}

/// The renderings of a sequence of classes, in order.
pub open spec fn spec_class_records(n: nat, classes: Seq<ClassMapping>) -> Seq<char>
    decreases classes.len(),
{
    if classes.len() == 0 {
        Seq::empty()
    } else {
        spec_class_records(n, classes.drop_last()) + spec_class_record(n, classes.last())
    }
}

/// The Tiny v2 rendering of a whole tree: the header, then every class
/// record in order.
pub open spec fn spec_render_tree(tree: MappingTree) -> Seq<char> {
    spec_header_line(tree.src_namespace@, tree.dst_namespaces.deep_view()) + spec_class_records(
        tree.dst_namespaces@.len(),
        tree.classes@,
    )
}

/// Whether one method argument can be written under `n` destination
/// namespaces.
pub open spec fn spec_arg_wf(n: nat, arg: ArgMapping) -> bool {
    spec_dst_names_wf(n, arg.dst_names@)
}

/// Whether one method local variable can be written under `n` destination
/// namespaces.
pub open spec fn spec_var_wf(n: nat, var: VarMapping) -> bool {
    spec_dst_names_wf(n, var.dst_names@)
}

/// Whether one field can be written: the Tiny v2 writer demands its source
/// descriptor, and every destination name must lie within the `n`
/// destination namespaces.
pub open spec fn spec_field_wf(n: nat, field: FieldMapping) -> bool {
    &&& field.src_desc is Some
    &&& spec_dst_names_wf(n, field.dst_names@)
}

/// Whether one method and everything below it can be written.
pub open spec fn spec_method_wf(n: nat, method: MethodMapping) -> bool {
    &&& method.src_desc is Some
    &&& spec_dst_names_wf(n, method.dst_names@)
    &&& forall|i: int| 0 <= i < method.args@.len() ==> spec_arg_wf(n, #[trigger] method.args@[i])
    &&& forall|i: int| 0 <= i < method.vars@.len() ==> spec_var_wf(n, #[trigger] method.vars@[i])
}

/// Whether one class and everything below it can be written.
pub open spec fn spec_class_wf(n: nat, class: ClassMapping) -> bool {
    &&& spec_dst_names_wf(n, class.dst_names@)
    &&& forall|i: int|
        0 <= i < class.fields@.len() ==> spec_field_wf(n, #[trigger] class.fields@[i])
    &&& forall|i: int|
        0 <= i < class.methods@.len() ==> spec_method_wf(n, #[trigger] class.methods@[i])
}

/// Whether a whole tree can be written as Tiny v2 text: every field and
/// method carries its source descriptor, and every destination name lies
/// within the tree's destination namespace list.
pub open spec fn spec_tree_wf(tree: MappingTree) -> bool {
    forall|i: int|
        0 <= i < tree.classes@.len() ==> spec_class_wf(
            tree.dst_namespaces@.len(),
            #[trigger] tree.classes@[i],
        )
}

} // verus!

verus! {

/// Visits the destination descriptors of one element on the Tiny v2
/// writer, which ignores them.
fn write_dst_descs(w: &mut Tiny2Writer, kind: MappedElementKind, dsts: &Vec<DstDesc>) -> (r:
    VisitResult<()>)
    ensures
        r == Ok::<(), VisitError>(()),
        *final(w) == *old(w),
{
    let mut i: usize = 0;
    while i < dsts.len()
        invariant
            *w == *old(w),
        decreases dsts@.len() - i,
    {
        let dst = &dsts[i];
        match w.visit_dst_desc(kind, dst.namespace, dst.desc.as_str()) {
            Ok(u) => {},
            Err(e) => {
                return Err(e);
            },
        }
        i = i + 1;
    }
    Ok(())
}

/// Visits the comment of one element on the Tiny v2 writer, where one is
/// present.
fn write_comment_opt(w: &mut Tiny2Writer, kind: MappedElementKind, comment: &Option<String>) -> (r:
    VisitResult<()>)
    ensures
        r == Ok::<(), VisitError>(()),
        final(w).spec_output() == old(w).spec_output() + spec_opt_comment(kind, *comment),
        final(w).spec_dst_names() == old(w).spec_dst_names(),
{
    match comment {
        Some(text) => w.visit_comment(kind, text.as_str()),
        None => {
            proof {
                assert(old(w).spec_output() + spec_opt_comment(kind, *comment) =~= old(
                    w,
                ).spec_output());
            }
            Ok(())
        },
    }
}

/// Writes one method argument record and its comment.
fn write_arg_record(w: &mut Tiny2Writer, arg: &ArgMapping) -> (r: VisitResult<()>)
    requires
        forall|i: int|
            0 <= i < old(w).spec_dst_names().len() ==> old(w).spec_dst_names()[i] is None,
    ensures
        r is Ok <==> spec_arg_wf(old(w).spec_dst_names().len() as nat, *arg),
        r is Ok ==> final(w).spec_output() == old(w).spec_output() + spec_arg_record(
            old(w).spec_dst_names().len() as nat,
            *arg,
        ),
        r is Ok ==> final(w).spec_dst_names().len() == old(w).spec_dst_names().len(),
        r is Ok ==> forall|i: int|
            0 <= i < final(w).spec_dst_names().len() ==> final(w).spec_dst_names()[i] is None,
        r is Err ==> r == Err::<(), VisitError>(VisitError::DstNamespaceOutOfRange),
{
    let ghost n = old(w).spec_dst_names().len();
    let ghost start = spec_arg_start(arg.lv_index as int, arg.src_name.deep_view());
    let src_name: Option<&str> = match &arg.src_name {
        Some(s) => Some(s.as_str()),
        None => None,
    };
    proof {
        assert(src_name.deep_view() == arg.src_name.deep_view());
    }
    match w.visit_method_arg(arg.arg_position, arg.lv_index, src_name) {
        Ok(b) => {},
        Err(e) => {
            return Err(e);
        },
    }
    match write_dst_names(w, MappedElementKind::MethodArg, &arg.dst_names) {
        Ok(u) => {},
        Err(e) => {
            return Err(e);
        },
    }
    match w.visit_element_content(MappedElementKind::MethodArg) {
        Ok(b) => {},
        Err(e) => {
            return Err(e);
        },
    }
    proof {
        lemma_apply_dst_names_len(old(w).spec_dst_names(), arg.dst_names@);
        assert(old(w).spec_dst_names() =~= spec_empty_slots(n));
        assert(w.spec_output() =~= old(w).spec_output() + spec_element_record(
            start,
            n,
            arg.dst_names@,
        ));
    }
    match write_comment_opt(w, MappedElementKind::MethodArg, &arg.comment) {
        Ok(u) => {},
        Err(e) => {
            return Err(e);
        },
    }
    proof {
        assert(w.spec_output() =~= old(w).spec_output() + spec_arg_record(n, *arg));
    }
    Ok(())
}

/// Writes one method local variable record and its comment.
fn write_var_record(w: &mut Tiny2Writer, var: &VarMapping) -> (r: VisitResult<()>)
    requires
        forall|i: int|
            0 <= i < old(w).spec_dst_names().len() ==> old(w).spec_dst_names()[i] is None,
    ensures
        r is Ok <==> spec_var_wf(old(w).spec_dst_names().len() as nat, *var),
        r is Ok ==> final(w).spec_output() == old(w).spec_output() + spec_var_record(
            old(w).spec_dst_names().len() as nat,
            *var,
        ),
        r is Ok ==> final(w).spec_dst_names().len() == old(w).spec_dst_names().len(),
        r is Ok ==> forall|i: int|
            0 <= i < final(w).spec_dst_names().len() ==> final(w).spec_dst_names()[i] is None,
        r is Err ==> r == Err::<(), VisitError>(VisitError::DstNamespaceOutOfRange),
{
    let ghost n = old(w).spec_dst_names().len();
    let ghost start = spec_var_start(
        var.lvt_row_index as int,
        var.lv_index as int,
        var.start_op_idx as int,
        var.src_name.deep_view(),
    );
    let src_name: Option<&str> = match &var.src_name {
        Some(s) => Some(s.as_str()),
        None => None,
    };
    proof {
        assert(src_name.deep_view() == var.src_name.deep_view());
    }
    match w.visit_method_var(var.lvt_row_index, var.lv_index, var.start_op_idx, src_name) {
        Ok(b) => {},
        Err(e) => {
            return Err(e);
        },
    }
    match write_dst_names(w, MappedElementKind::MethodVar, &var.dst_names) {
        Ok(u) => {},
        Err(e) => {
            return Err(e);
        },
    }
    match w.visit_element_content(MappedElementKind::MethodVar) {
        Ok(b) => {},
        Err(e) => {
            return Err(e);
        },
    }
    proof {
        lemma_apply_dst_names_len(old(w).spec_dst_names(), var.dst_names@);
        assert(old(w).spec_dst_names() =~= spec_empty_slots(n));
        assert(w.spec_output() =~= old(w).spec_output() + spec_element_record(
            start,
            n,
            var.dst_names@,
        ));
    }
    match write_comment_opt(w, MappedElementKind::MethodVar, &var.comment) {
        Ok(u) => {},
        Err(e) => {
            return Err(e);
        },
    }
    proof {
        assert(w.spec_output() =~= old(w).spec_output() + spec_var_record(n, *var));
    }
    Ok(())
}

} // verus!

verus! {

/// Writes one field record and its comment.
fn write_field_record(w: &mut Tiny2Writer, field: &FieldMapping) -> (r: VisitResult<()>)
    requires
        forall|i: int|
            0 <= i < old(w).spec_dst_names().len() ==> old(w).spec_dst_names()[i] is None,
    ensures
        r is Ok <==> spec_field_wf(old(w).spec_dst_names().len() as nat, *field),
        r is Ok ==> final(w).spec_output() == old(w).spec_output() + spec_field_record(
            old(w).spec_dst_names().len() as nat,
            *field,
        ),
        r is Ok ==> final(w).spec_dst_names().len() == old(w).spec_dst_names().len(),
        r is Ok ==> forall|i: int|
            0 <= i < final(w).spec_dst_names().len() ==> final(w).spec_dst_names()[i] is None,
        r is Err ==> (r == Err::<(), VisitError>(VisitError::MissingSrcDesc) || r == Err::<
            (),
            VisitError,
        >(VisitError::DstNamespaceOutOfRange)),
{
    let ghost n = old(w).spec_dst_names().len();
    let ghost start = spec_member_start(
        'f',
        spec_opt_name(field.src_desc.deep_view()),
        field.src_name@,
    );
    let src_desc: Option<&str> = match &field.src_desc {
        Some(d) => Some(d.as_str()),
        None => None,
    };
    proof {
        assert(src_desc.deep_view() == field.src_desc.deep_view());
    }
    match w.visit_field(field.src_name.as_str(), src_desc) {
        Ok(b) => {},
        Err(e) => {
            return Err(e);
        },
    }
    match write_dst_names(w, MappedElementKind::Field, &field.dst_names) {
        Ok(u) => {},
        Err(e) => {
            return Err(e);
        },
    }
    match write_dst_descs(w, MappedElementKind::Field, &field.dst_descs) {
        Ok(u) => {},
        Err(e) => {
            return Err(e);
        },
    }
    match w.visit_element_content(MappedElementKind::Field) {
        Ok(b) => {},
        Err(e) => {
            return Err(e);
        },
    }
    proof {
        lemma_apply_dst_names_len(old(w).spec_dst_names(), field.dst_names@);
        assert(old(w).spec_dst_names() =~= spec_empty_slots(n));
        assert(w.spec_output() =~= old(w).spec_output() + spec_element_record(
            start,
            n,
            field.dst_names@,
        ));
    }
    match write_comment_opt(w, MappedElementKind::Field, &field.comment) {
        Ok(u) => {},
        Err(e) => {
            return Err(e);
        },
    }
    proof {
        assert(w.spec_output() =~= old(w).spec_output() + spec_field_record(n, *field));
    }
    Ok(())
}

/// Writes one method record, its arguments, its local variables and its
/// comment.
fn write_method_record(w: &mut Tiny2Writer, method: &MethodMapping) -> (r: VisitResult<()>)
    requires
        forall|i: int|
            0 <= i < old(w).spec_dst_names().len() ==> old(w).spec_dst_names()[i] is None,
    ensures
        r is Ok <==> spec_method_wf(old(w).spec_dst_names().len() as nat, *method),
        r is Ok ==> final(w).spec_output() == old(w).spec_output() + spec_method_record(
            old(w).spec_dst_names().len() as nat,
            *method,
        ),
        r is Ok ==> final(w).spec_dst_names().len() == old(w).spec_dst_names().len(),
        r is Ok ==> forall|i: int|
            0 <= i < final(w).spec_dst_names().len() ==> final(w).spec_dst_names()[i] is None,
        r is Err ==> (r == Err::<(), VisitError>(VisitError::MissingSrcDesc) || r == Err::<
            (),
            VisitError,
        >(VisitError::DstNamespaceOutOfRange)),
{
    let ghost n = old(w).spec_dst_names().len();
    let ghost start = spec_member_start(
        'm',
        spec_opt_name(method.src_desc.deep_view()),
        method.src_name@,
    );
    let src_desc: Option<&str> = match &method.src_desc {
        Some(d) => Some(d.as_str()),
        None => None,
    };
    proof {
        assert(src_desc.deep_view() == method.src_desc.deep_view());
    }
    match w.visit_method(method.src_name.as_str(), src_desc) {
        Ok(b) => {},
        Err(e) => {
            return Err(e);
        },
    }
    match write_dst_names(w, MappedElementKind::Method, &method.dst_names) {
        Ok(u) => {},
        Err(e) => {
            return Err(e);
        },
    }
    match write_dst_descs(w, MappedElementKind::Method, &method.dst_descs) {
        Ok(u) => {},
        Err(e) => {
            return Err(e);
        },
    }
    match w.visit_element_content(MappedElementKind::Method) {
        Ok(b) => {},
        Err(e) => {
            return Err(e);
        },
    }
    proof {
        lemma_apply_dst_names_len(old(w).spec_dst_names(), method.dst_names@);
        assert(old(w).spec_dst_names() =~= spec_empty_slots(n));
        assert(w.spec_output() =~= old(w).spec_output() + spec_element_record(
            start,
            n,
            method.dst_names@,
        ));
    }
    let ghost out_elem = w.spec_output();

    let mut i: usize = 0;
    while i < method.args.len()
        invariant
            i <= method.args@.len(),
            n == old(w).spec_dst_names().len(),
            w.spec_dst_names().len() == n,
            forall|k: int| 0 <= k < w.spec_dst_names().len() ==> w.spec_dst_names()[k] is None,
            w.spec_output() == out_elem + spec_arg_records(n, method.args@.subrange(0, i as int)),
            forall|j: int| 0 <= j < i ==> spec_arg_wf(n, #[trigger] method.args@[j]),
        decreases method.args@.len() - i,
    {
        match write_arg_record(w, &method.args[i]) {
            Ok(u) => {},
            Err(e) => {
                proof {
                    assert(!spec_arg_wf(n, method.args@[i as int]));
                    assert(!spec_method_wf(n, *method));
                }
                return Err(e);
            },
        }
        proof {
            let prefix = method.args@.subrange(0, i as int + 1);
            assert(prefix.drop_last() =~= method.args@.subrange(0, i as int));
            assert(prefix.last() == method.args@[i as int]);
            assert(w.spec_output() =~= out_elem + spec_arg_records(n, prefix));
        }
        i = i + 1;
    }
    proof {
        assert(method.args@.subrange(0, method.args@.len() as int) =~= method.args@);
    }
    let ghost out_args = w.spec_output();

    let mut j: usize = 0;
    while j < method.vars.len()
        invariant
            j <= method.vars@.len(),
            n == old(w).spec_dst_names().len(),
            w.spec_dst_names().len() == n,
            forall|k: int| 0 <= k < w.spec_dst_names().len() ==> w.spec_dst_names()[k] is None,
            w.spec_output() == out_args + spec_var_records(n, method.vars@.subrange(0, j as int)),
            forall|k: int| 0 <= k < j ==> spec_var_wf(n, #[trigger] method.vars@[k]),
        decreases method.vars@.len() - j,
    {
        match write_var_record(w, &method.vars[j]) {
            Ok(u) => {},
            Err(e) => {
                proof {
                    assert(!spec_var_wf(n, method.vars@[j as int]));
                    assert(!spec_method_wf(n, *method));
                }
                return Err(e);
            },
        }
        proof {
            let prefix = method.vars@.subrange(0, j as int + 1);
            assert(prefix.drop_last() =~= method.vars@.subrange(0, j as int));
            assert(prefix.last() == method.vars@[j as int]);
            assert(w.spec_output() =~= out_args + spec_var_records(n, prefix));
        }
        j = j + 1;
    }
    proof {
        assert(method.vars@.subrange(0, method.vars@.len() as int) =~= method.vars@);
    }

    match write_comment_opt(w, MappedElementKind::Method, &method.comment) {
        Ok(u) => {},
        Err(e) => {
            return Err(e);
        },
    }
    proof {
        assert(w.spec_output() =~= old(w).spec_output() + spec_method_record(n, *method));
    }
    Ok(())
}

} // verus!

verus! {

/// Writes one class record, its fields, its methods and its comment.
fn write_class_record(w: &mut Tiny2Writer, class: &ClassMapping) -> (r: VisitResult<()>)
    requires
        forall|i: int|
            0 <= i < old(w).spec_dst_names().len() ==> old(w).spec_dst_names()[i] is None,
    ensures
        r is Ok <==> spec_class_wf(old(w).spec_dst_names().len() as nat, *class),
        r is Ok ==> final(w).spec_output() == old(w).spec_output() + spec_class_record(
            old(w).spec_dst_names().len() as nat,
            *class,
        ),
        r is Ok ==> final(w).spec_dst_names().len() == old(w).spec_dst_names().len(),
        r is Ok ==> forall|i: int|
            0 <= i < final(w).spec_dst_names().len() ==> final(w).spec_dst_names()[i] is None,
        r is Err ==> (r == Err::<(), VisitError>(VisitError::MissingSrcDesc) || r == Err::<
            (),
            VisitError,
        >(VisitError::DstNamespaceOutOfRange)),
{
    let ghost n = old(w).spec_dst_names().len();
    let ghost start = spec_class_start(class.src_name@);
    match w.visit_class(class.src_name.as_str()) {
        Ok(b) => {},
        Err(e) => {
            return Err(e);
        },
    }
    match write_dst_names(w, MappedElementKind::Class, &class.dst_names) {
        Ok(u) => {},
        Err(e) => {
            return Err(e);
        },
    }
    match w.visit_element_content(MappedElementKind::Class) {
        Ok(b) => {},
        Err(e) => {
            return Err(e);
        },
    }
    proof {
        lemma_apply_dst_names_len(old(w).spec_dst_names(), class.dst_names@);
        assert(old(w).spec_dst_names() =~= spec_empty_slots(n));
        assert(w.spec_output() =~= old(w).spec_output() + spec_element_record(
            start,
            n,
            class.dst_names@,
        ));
    }
    let ghost out_elem = w.spec_output();

    let mut i: usize = 0;
    while i < class.fields.len()
        invariant
            i <= class.fields@.len(),
            n == old(w).spec_dst_names().len(),
            w.spec_dst_names().len() == n,
            forall|k: int| 0 <= k < w.spec_dst_names().len() ==> w.spec_dst_names()[k] is None,
            w.spec_output() == out_elem + spec_field_records(
                n,
                class.fields@.subrange(0, i as int),
            ),
            forall|j: int| 0 <= j < i ==> spec_field_wf(n, #[trigger] class.fields@[j]),
        decreases class.fields@.len() - i,
    {
        match write_field_record(w, &class.fields[i]) {
            Ok(u) => {},
            Err(e) => {
                proof {
                    assert(!spec_field_wf(n, class.fields@[i as int]));
                    assert(!spec_class_wf(n, *class));
                }
                return Err(e);
            },
        }
        proof {
            let prefix = class.fields@.subrange(0, i as int + 1);
            assert(prefix.drop_last() =~= class.fields@.subrange(0, i as int));
            assert(prefix.last() == class.fields@[i as int]);
            assert(w.spec_output() =~= out_elem + spec_field_records(n, prefix));
        }
        i = i + 1;
    }
    proof {
        assert(class.fields@.subrange(0, class.fields@.len() as int) =~= class.fields@);
    }
    let ghost out_fields = w.spec_output();

    let mut j: usize = 0;
    while j < class.methods.len()
        invariant
            j <= class.methods@.len(),
            n == old(w).spec_dst_names().len(),
            w.spec_dst_names().len() == n,
            forall|k: int| 0 <= k < w.spec_dst_names().len() ==> w.spec_dst_names()[k] is None,
            w.spec_output() == out_fields + spec_method_records(
                n,
                class.methods@.subrange(0, j as int),
            ),
            forall|k: int| 0 <= k < j ==> spec_method_wf(n, #[trigger] class.methods@[k]),
        decreases class.methods@.len() - j,
    {
        match write_method_record(w, &class.methods[j]) {
            Ok(u) => {},
            Err(e) => {
                proof {
                    assert(!spec_method_wf(n, class.methods@[j as int]));
                    assert(!spec_class_wf(n, *class));
                }
                return Err(e);
            },
        }
        proof {
            let prefix = class.methods@.subrange(0, j as int + 1);
            assert(prefix.drop_last() =~= class.methods@.subrange(0, j as int));
            assert(prefix.last() == class.methods@[j as int]);
            assert(w.spec_output() =~= out_fields + spec_method_records(n, prefix));
        }
        j = j + 1;
    }
    proof {
        assert(class.methods@.subrange(0, class.methods@.len() as int) =~= class.methods@);
    }

    match write_comment_opt(w, MappedElementKind::Class, &class.comment) {
        Ok(u) => {},
        Err(e) => {
            return Err(e);
        },
    }
    proof {
        assert(w.spec_output() =~= old(w).spec_output() + spec_class_record(n, *class));
    }
    Ok(())
}

/// Serializes a whole mapping tree to Tiny v2 text in one pass.
///
/// Succeeds exactly on the trees that satisfy the writer's declared
/// requirements: every field and method carries its source descriptor and
/// every destination name lies within the destination namespace list. The
/// produced text is exactly [`spec_render_tree`] of the tree: the header
/// line, then one record per class, field, method, argument, variable and
/// comment, in tree order. On any other tree the first violation surfaces
/// as the corresponding error.
pub fn write_tiny2(tree: &MappingTree) -> (r: VisitResult<String>)
    ensures
        r is Ok <==> spec_tree_wf(*tree),
        r matches Ok(text) ==> text@ == spec_render_tree(*tree),
        r is Err ==> (r == Err::<String, VisitError>(VisitError::MissingSrcDesc) || r == Err::<
            String,
            VisitError,
        >(VisitError::DstNamespaceOutOfRange)),
{
    let ghost n = tree.dst_namespaces@.len();
    let mut w = Tiny2Writer::new(String::new());

    let mut dsts: Vec<&str> = Vec::new();
    let mut i: usize = 0;
    while i < tree.dst_namespaces.len()
        invariant
            i <= tree.dst_namespaces@.len(),
            dsts@.len() == i,
            forall|j: int| 0 <= j < i ==> dsts@[j]@ == tree.dst_namespaces@[j]@,
        decreases tree.dst_namespaces@.len() - i,
    {
        dsts.push(tree.dst_namespaces[i].as_str());
        i = i + 1;
    }
    let dst_slice: &[&str] = dsts.as_slice();
    match w.visit_namespaces(tree.src_namespace.as_str(), dst_slice) {
        Ok(u) => {},
        Err(e) => {
            return Err(e);
        },
    }
    proof {
        assert(dst_slice.deep_view() =~= tree.dst_namespaces.deep_view());
        assert(w.spec_output() =~= spec_header_line(
            tree.src_namespace@,
            tree.dst_namespaces.deep_view(),
        ));
    }
    let ghost out_header = w.spec_output();

    let mut c: usize = 0;
    while c < tree.classes.len()
        invariant
            c <= tree.classes@.len(),
            n == tree.dst_namespaces@.len(),
            w.spec_dst_names().len() == n,
            forall|k: int| 0 <= k < w.spec_dst_names().len() ==> w.spec_dst_names()[k] is None,
            out_header == spec_header_line(tree.src_namespace@, tree.dst_namespaces.deep_view()),
            w.spec_output() == out_header + spec_class_records(
                n,
                tree.classes@.subrange(0, c as int),
            ),
            forall|j: int| 0 <= j < c ==> spec_class_wf(n, #[trigger] tree.classes@[j]),
        decreases tree.classes@.len() - c,
    {
        match write_class_record(&mut w, &tree.classes[c]) {
            Ok(u) => {},
            Err(e) => {
                proof {
                    assert(!spec_class_wf(n, tree.classes@[c as int]));
                    assert(!spec_tree_wf(*tree));
                }
                return Err(e);
            },
        }
        proof {
            let prefix = tree.classes@.subrange(0, c as int + 1);
            assert(prefix.drop_last() =~= tree.classes@.subrange(0, c as int));
            assert(prefix.last() == tree.classes@[c as int]);
            assert(w.spec_output() =~= out_header + spec_class_records(n, prefix));
        }
        c = c + 1;
    }
    proof {
        assert(tree.classes@.subrange(0, tree.classes@.len() as int) =~= tree.classes@);
        assert(w.spec_output() =~= spec_render_tree(*tree));
    }
    Ok(w.into_inner())
}

} // verus!
