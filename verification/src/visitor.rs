//! The mapping visitor protocol: capability flags, visit errors and the
//! callback trait through which producers feed consumers.

use vstd::prelude::*;

use crate::MappedElementKind;

verus! {

/// Flags that describe the behaviour of a mapping visitor.
///
/// Flags are pure capability requests: the protocol defines their meaning
/// but does not enforce them. Enforcement is a contract between producer
/// and consumer.
#[derive(Clone, Copy, Debug, PartialEq, Eq, Hash, Structural)]
pub enum MappingFlag {
    /// Indication that the visitor may require multiple passes.
    NeedsMultiplePasses,
    /// Requirement that metadata has to be provided in the header.
    NeedsHeaderMetadata,
    /// Requirement that an element has to be visited only once within a pass.
    ///
    /// This means that e.g. all members and properties of a class have to be visited after the same single
    /// `visit_class` invocation and no other `visit_class` invocation with the same `src_name` may occur.
    NeedsUniqueness,
    /// Requirement that source field descriptors have to be supplied.
    NeedsSrcFieldDesc,
    /// Requirement that source method descriptors have to be supplied.
    NeedsSrcMethodDesc,
    /// Requirement that destination field descriptors have to be supplied.
    NeedsDstFieldDesc,
    /// Requirement that destination method descriptors have to be supplied.
    NeedsDstMethodDesc,
}

/// The set of flags a mapping visitor declares.
///
/// Its view is the set of declared [`MappingFlag`] values; membership is
/// what the protocol cares about, so the representation holds one `bool`
/// per flag.
#[derive(Clone, Copy, Debug, PartialEq, Eq, Structural)]
pub struct MappingFlags {
    needs_multiple_passes: bool,
    needs_header_metadata: bool,
    needs_uniqueness: bool,
    needs_src_field_desc: bool,
    needs_src_method_desc: bool,
    needs_dst_field_desc: bool,
    needs_dst_method_desc: bool,
}

impl MappingFlags {
    /// Whether `flag` is a member of this set, as a mathematical predicate.
    pub closed spec fn spec_contains(self, flag: MappingFlag) -> bool {
        match flag {
            MappingFlag::NeedsMultiplePasses => self.needs_multiple_passes,
            MappingFlag::NeedsHeaderMetadata => self.needs_header_metadata,
            MappingFlag::NeedsUniqueness => self.needs_uniqueness,
            MappingFlag::NeedsSrcFieldDesc => self.needs_src_field_desc,
            MappingFlag::NeedsSrcMethodDesc => self.needs_src_method_desc,
            MappingFlag::NeedsDstFieldDesc => self.needs_dst_field_desc,
            MappingFlag::NeedsDstMethodDesc => self.needs_dst_method_desc,
        }
    }

    /// The empty flag set.
    pub fn empty() -> (r: MappingFlags)
        ensures
            forall|f: MappingFlag| !r.spec_contains(f),
    {
        MappingFlags {
            needs_multiple_passes: false,
            needs_header_metadata: false,
            needs_uniqueness: false,
            needs_src_field_desc: false,
            needs_src_method_desc: false,
            needs_dst_field_desc: false,
            needs_dst_method_desc: false,
        }
    }

    /// This set with `flag` added.
    pub fn with(self, flag: MappingFlag) -> (r: MappingFlags)
        ensures
            r.spec_contains(flag),
            forall|f: MappingFlag| f != flag ==> r.spec_contains(f) == self.spec_contains(f),
    {
        let mut r = self;
        match flag {
            MappingFlag::NeedsMultiplePasses => {
                r.needs_multiple_passes = true;
            },
            MappingFlag::NeedsHeaderMetadata => {
                r.needs_header_metadata = true;
            },
            MappingFlag::NeedsUniqueness => {
                r.needs_uniqueness = true;
            },
            MappingFlag::NeedsSrcFieldDesc => {
                r.needs_src_field_desc = true;
            },
            MappingFlag::NeedsSrcMethodDesc => {
                r.needs_src_method_desc = true;
            },
            MappingFlag::NeedsDstFieldDesc => {
                r.needs_dst_field_desc = true;
            },
            MappingFlag::NeedsDstMethodDesc => {
                r.needs_dst_method_desc = true;
            },
        }
        r
    }

    /// Whether `flag` is a member of this set.
    pub fn contains(&self, flag: MappingFlag) -> (r: bool)
        ensures
            r == self.spec_contains(flag),
    {
        match flag {
            MappingFlag::NeedsMultiplePasses => self.needs_multiple_passes,
            MappingFlag::NeedsHeaderMetadata => self.needs_header_metadata,
            MappingFlag::NeedsUniqueness => self.needs_uniqueness,
            MappingFlag::NeedsSrcFieldDesc => self.needs_src_field_desc,
            MappingFlag::NeedsSrcMethodDesc => self.needs_src_method_desc,
            MappingFlag::NeedsDstFieldDesc => self.needs_dst_field_desc,
            MappingFlag::NeedsDstMethodDesc => self.needs_dst_method_desc,
        }
    }
}

/// A failure surfaced by a mapping visitor or by the driver of a pass.
///
/// All failures are fatal to the current pass and are reported
/// synchronously to the caller that invoked the violating operation; no
/// retries happen anywhere.
#[derive(Clone, Copy, Debug, PartialEq, Eq, Structural)]
pub enum VisitError {
    /// A consumer requiring source descriptors was driven by a producer
    /// that omitted one.
    MissingSrcDesc,
    /// A destination name or descriptor used a namespace index at or past
    /// the end of the destination namespace list of the pass.
    DstNamespaceOutOfRange,
    /// A consumer requested another pass without declaring
    /// [`MappingFlag::NeedsMultiplePasses`].
    UnsupportedMultiplePasses,
    /// The underlying output target rejected a write.
    Sink,
}

/// The result of visiting mapping names, content or metadata.
pub type VisitResult<T> = Result<T, VisitError>;

/// Visitor with order implied context and consecutive dst name visits.
///
/// The visitation order is as follows (omitting visit prefixes for brevity, lowercase for cross references):
/// - overall: `header -> content -> End -> overall`
/// - header: `Header -> Namespaces [-> Metadata]*`
/// - content: `Content [-> class|Metadata]*`
/// - class: `Class [-> DstName]* -> ElementContent [-> field|method|Comment]*`
/// - field: `Field [-> DstName|DstDesc]* -> ElementContent [-> Comment]`
/// - method: `Method [-> DstName|DstDesc]* -> ElementContent [-> arg|var|Comment]*`
/// - arg: `Arg [-> DstName]* -> ElementContent [-> Comment]`
/// - var: `Var [-> DstName]* -> ElementContent [-> Comment]`
///
/// The elements with a skip-return (Header/Content/Class/Field/Method/Arg/Var/ElementContent) abort
/// processing the remainder of their associated item in the above listing if requested by a `false`
/// return value. For example skipping in Class does neither DstName nor ElementContent, but continues
/// with another class or End.
///
/// Returning `false` in End requests another complete visitation pass if the flag
/// [`MappingFlag::NeedsMultiplePasses`] is provided, otherwise the behavior is unspecified and a
/// driver should fail fast. This is used for visitors that first have to acquire some overall
/// mapping knowledge before being able to perform their task. Subsequent visitation passes need to
/// use the same namespaces and data, only a new independent visitation may use something else after
/// a [`reset`](Self::reset).
///
/// The same element may be visited more than once unless the flags contain
/// [`MappingFlag::NeedsUniqueness`].
pub trait MappingVisitor {
    /// Returns the flags describing this mapping visitor.
    fn flags(&self) -> MappingFlags;

    /// Reset the visitor including any chained visitors to allow for another
    /// independent visit (excluding the restart requested by returning
    /// `false` from [`visit_end`](Self::visit_end)).
    fn reset(&mut self) {
    }

    /// Determine whether the header (namespaces, metadata if part of the header) should be visited.
    ///
    /// By default, returns `Ok(true)`.
    fn visit_header(&mut self) -> (r: VisitResult<bool>) {
        Ok(true)
    }

    /// Visit the list of namespaces.
    ///
    /// `dst_namespaces` may be empty, which indicates a single-namespace mapping file.
    fn visit_namespaces(&mut self, src_namespace: &str, dst_namespaces: &[&str]) -> (r:
        VisitResult<()>);

    /// Visits a metadata property.
    ///
    /// Some mapping formats allow you to add a set of key-value properties
    /// which will be passed to this method.
    fn visit_metadata(&mut self, key: &str, value: &str) -> (r: VisitResult<()>) {
        Ok(())
    }

    /// Determine whether the mapping content (classes and anything below, metadata if not part of the header) should be visited.
    ///
    /// By default, returns `Ok(true)`.
    fn visit_content(&mut self) -> (r: VisitResult<bool>) {
        Ok(true)
    }

    /// Visits a class and its source name.
    ///
    /// The result describes whether the rest of the class (destination names, members and comments) should be read.
    fn visit_class(&mut self, src_name: &str) -> (r: VisitResult<bool>);

    /// Visits a field and its source name and descriptor.
    ///
    /// The result describes whether the rest of the field (destination names and comments) should be read.
    fn visit_field(&mut self, src_name: &str, src_desc: Option<&str>) -> (r: VisitResult<bool>);

    /// Visits a method and its source name and descriptor.
    ///
    /// The result describes whether the rest of the method (destination names, variables, arguments and comments) should be read.
    fn visit_method(&mut self, src_name: &str, src_desc: Option<&str>) -> (r: VisitResult<bool>);

    /// Visits a method argument and its source name and indices.
    ///
    /// The result describes whether the rest of the argument (destination names and comments) should be read.
    fn visit_method_arg(&mut self, arg_position: i32, lv_index: i32, src_name: Option<&str>) -> (r:
        VisitResult<bool>);

    /// Visits a method local variable and its source name and indices.
    ///
    /// The result describes whether the rest of the variable (destination names and comments) should be read.
    fn visit_method_var(
        &mut self,
        lvt_row_index: i32,
        lv_index: i32,
        start_op_idx: i32,
        src_name: Option<&str>,
    ) -> (r: VisitResult<bool>);

    /// Finish the visitation pass.
    ///
    /// Returns true if the visitation pass is final, false if it should be started over.
    fn visit_end(&mut self) -> (r: VisitResult<bool>) {
        Ok(true)
    }

    /// Visits the destination name for the current element.
    ///
    /// `namespace` is the namespace index or index into the `dst_namespaces` list
    /// in [`Self::visit_namespaces`].
    fn visit_dst_name(
        &mut self,
        target_kind: MappedElementKind,
        namespace: usize,
        name: &str,
    ) -> (r: VisitResult<()>);

    /// Visits the destination descriptor for the current element.
    ///
    /// `namespace` is the namespace index or index into the `dst_namespaces` list
    /// in [`Self::visit_namespaces`].
    fn visit_dst_desc(
        &mut self,
        target_kind: MappedElementKind,
        namespace: usize,
        desc: &str,
    ) -> (r: VisitResult<()>) {
        Ok(())
    }

    /// Determine whether the element content (comment, sub-elements) should be visited.
    ///
    /// Called after visiting the target itself (e.g. [`Self::visit_class`] for `target_kind`=[`Class`](MappedElementKind::Class)),
    /// its dst names and descs, but before any child elements or the comment.
    ///
    /// This is also a notification about all available dst names having been passed on.
    fn visit_element_content(&mut self, target_kind: MappedElementKind) -> (r: VisitResult<bool>);

    /// Visits the comment for the specified element (last content-visited or any parent).
    /// The `comment` can potentially be a multi-line string.
    fn visit_comment(&mut self, target_kind: MappedElementKind, comment: &str) -> (r: VisitResult<
        (),
    >);
}

/// What a driver does once a pass has ended.
#[derive(Clone, Copy, Debug, PartialEq, Eq, Structural)]
pub enum PassOutcome {
    /// The pass was final: the visitation is complete.
    Finished,
    /// The consumer requested, and is entitled to, another full pass over
    /// the same data.
    RunAgain,
}

/// Decides what follows the end of a pass: `pass_final` is what the
/// consumer's end-of-pass callback returned, `flags` are its declared
/// flags.
///
/// A request for another pass is honoured only under
/// [`MappingFlag::NeedsMultiplePasses`]; without that flag it is a contract
/// violation surfaced as an error rather than silently looping or silently
/// finishing.
pub fn end_of_pass_outcome(pass_final: bool, flags: &MappingFlags) -> (r: VisitResult<PassOutcome>)
    ensures
        pass_final ==> r == VisitResult::<PassOutcome>::Ok(PassOutcome::Finished),
        (!pass_final && flags.spec_contains(MappingFlag::NeedsMultiplePasses)) ==> r
            == VisitResult::<PassOutcome>::Ok(PassOutcome::RunAgain),
        (!pass_final && !flags.spec_contains(MappingFlag::NeedsMultiplePasses)) ==> r
            == VisitResult::<PassOutcome>::Err(VisitError::UnsupportedMultiplePasses),
{
    if pass_final {
        Ok(PassOutcome::Finished)
    } else if flags.contains(MappingFlag::NeedsMultiplePasses) {
        Ok(PassOutcome::RunAgain)
    } else {
        Err(VisitError::UnsupportedMultiplePasses)
    }
}

} // verus!
