use jvm_obfuscation_mappings::format::Tiny2Writer;
use jvm_obfuscation_mappings::tree::{
    accept, run_pass, ArgMapping, ClassMapping, DstName, FieldMapping, MappingTree, MethodMapping,
    VarMapping,
};
use jvm_obfuscation_mappings::visitor::{
    MappingFlag, MappingFlags, MappingVisitor, VisitError, VisitResult,
};
use jvm_obfuscation_mappings::MappedElementKind;

fn empty_tree() -> MappingTree {
    MappingTree {
        src_namespace: String::from("named"),
        dst_namespaces: vec![String::from("intermediary")],
        metadata: vec![],
        classes: vec![],
    }
}

fn simple_class(src: &str) -> ClassMapping {
    ClassMapping {
        src_name: String::from(src),
        dst_names: vec![],
        fields: vec![],
        methods: vec![],
        comment: None,
    }
}

/// Records every callback as one line, and answers the begin callbacks from
/// configurable skip lists.
struct Recorder {
    events: Vec<String>,
    flags: MappingFlags,
    skip_header: bool,
    skip_content: bool,
    skip_classes: Vec<String>,
    final_after_passes: usize,
    passes: usize,
}

impl Recorder {
    fn new() -> Recorder {
        Recorder {
            events: Vec::new(),
            flags: MappingFlags::empty(),
            skip_header: false,
            skip_content: false,
            skip_classes: Vec::new(),
            final_after_passes: 1,
            passes: 0,
        }
    }
}

impl MappingVisitor for Recorder {
    fn flags(&self) -> MappingFlags {
        self.flags
    }

    fn visit_header(&mut self) -> VisitResult<bool> {
        self.events.push(String::from("header"));
        Ok(!self.skip_header)
    }

    fn visit_namespaces(&mut self, src_namespace: &str, dst_namespaces: &[&str]) -> VisitResult<()> {
        self.events
            .push(format!("namespaces {} {:?}", src_namespace, dst_namespaces));
        Ok(())
    }

    fn visit_metadata(&mut self, key: &str, value: &str) -> VisitResult<()> {
        self.events.push(format!("metadata {}={}", key, value));
        Ok(())
    }

    fn visit_content(&mut self) -> VisitResult<bool> {
        self.events.push(String::from("content"));
        Ok(!self.skip_content)
    }

    fn visit_class(&mut self, src_name: &str) -> VisitResult<bool> {
        self.events.push(format!("class {}", src_name));
        Ok(!self.skip_classes.iter().any(|s| s == src_name))
    }

    fn visit_field(&mut self, src_name: &str, src_desc: Option<&str>) -> VisitResult<bool> {
        self.events.push(format!("field {} {:?}", src_name, src_desc));
        Ok(true)
    }

    fn visit_method(&mut self, src_name: &str, src_desc: Option<&str>) -> VisitResult<bool> {
        self.events
            .push(format!("method {} {:?}", src_name, src_desc));
        Ok(true)
    }

    fn visit_method_arg(
        &mut self,
        arg_position: i32,
        lv_index: i32,
        src_name: Option<&str>,
    ) -> VisitResult<bool> {
        self.events
            .push(format!("arg {} {} {:?}", arg_position, lv_index, src_name));
        Ok(true)
    }

    fn visit_method_var(
        &mut self,
        lvt_row_index: i32,
        lv_index: i32,
        start_op_idx: i32,
        src_name: Option<&str>,
    ) -> VisitResult<bool> {
        self.events.push(format!(
            "var {} {} {} {:?}",
            lvt_row_index, lv_index, start_op_idx, src_name
        ));
        Ok(true)
    }

    fn visit_end(&mut self) -> VisitResult<bool> {
        self.events.push(String::from("end"));
        self.passes += 1;
        Ok(self.passes >= self.final_after_passes)
    }

    fn visit_dst_name(
        &mut self,
        target_kind: MappedElementKind,
        namespace: usize,
        name: &str,
    ) -> VisitResult<()> {
        self.events
            .push(format!("dst_name {:?} {} {}", target_kind, namespace, name));
        Ok(())
    }

    fn visit_dst_desc(
        &mut self,
        target_kind: MappedElementKind,
        namespace: usize,
        desc: &str,
    ) -> VisitResult<()> {
        self.events
            .push(format!("dst_desc {:?} {} {}", target_kind, namespace, desc));
        Ok(())
    }

    fn visit_element_content(&mut self, target_kind: MappedElementKind) -> VisitResult<bool> {
        self.events.push(format!("element_content {:?}", target_kind));
        Ok(true)
    }

    fn visit_comment(&mut self, target_kind: MappedElementKind, comment: &str) -> VisitResult<()> {
        self.events
            .push(format!("comment {:?} {}", target_kind, comment));
        Ok(())
    }
}

#[test]
fn tree_drives_the_tiny2_writer() {
    // One class "a" renamed to "b", one field (descriptor "I", name "f")
    // renamed to "g", and a trailing comment "note" on the field.
    let tree = MappingTree {
        src_namespace: String::from("named"),
        dst_namespaces: vec![String::from("intermediary")],
        metadata: vec![],
        classes: vec![ClassMapping {
            src_name: String::from("a"),
            dst_names: vec![DstName {
                namespace: 0,
                name: String::from("b"),
            }],
            fields: vec![FieldMapping {
                src_name: String::from("f"),
                src_desc: Some(String::from("I")),
                dst_names: vec![DstName {
                    namespace: 0,
                    name: String::from("g"),
                }],
                dst_descs: vec![],
                comment: Some(String::from("note")),
            }],
            methods: vec![],
            comment: None,
        }],
    };
    let mut writer = Tiny2Writer::new(String::new());
    assert_eq!(accept(&tree, &mut writer, 1), Ok(true));
    assert_eq!(
        writer.into_inner(),
        "tiny\tv2\t0\tnamed\tintermediary\nc\ta\tb\n\tf\tI\tf\tg\n\t\tc\tnote\n"
    );
}

#[test]
fn full_tree_event_order() {
    let mut tree = empty_tree();
    tree.metadata
        .push((String::from("author"), String::from("someone")));
    tree.classes.push(ClassMapping {
        src_name: String::from("a"),
        dst_names: vec![DstName {
            namespace: 0,
            name: String::from("b"),
        }],
        fields: vec![],
        methods: vec![MethodMapping {
            src_name: String::from("m"),
            src_desc: Some(String::from("()V")),
            dst_names: vec![],
            dst_descs: vec![],
            args: vec![ArgMapping {
                arg_position: 0,
                lv_index: 1,
                src_name: Some(String::from("x")),
                dst_names: vec![],
                comment: None,
            }],
            vars: vec![VarMapping {
                lvt_row_index: -1,
                lv_index: 2,
                start_op_idx: 3,
                src_name: None,
                dst_names: vec![],
                comment: None,
            }],
            comment: Some(String::from("doc")),
        }],
        comment: None,
    });
    let mut recorder = Recorder::new();
    assert_eq!(run_pass(&tree, &mut recorder), Ok(true));
    assert_eq!(
        recorder.events,
        vec![
            "header",
            "namespaces named [\"intermediary\"]",
            "metadata author=someone",
            "content",
            "class a",
            "dst_name Class 0 b",
            "element_content Class",
            "method m Some(\"()V\")",
            "element_content Method",
            "arg 0 1 Some(\"x\")",
            "element_content MethodArg",
            "var -1 2 3 None",
            "element_content MethodVar",
            "comment Method doc",
            "end",
        ]
    );
}

#[test]
fn skipping_a_class_skips_its_whole_subtree() {
    let mut tree = empty_tree();
    tree.classes.push(ClassMapping {
        src_name: String::from("a"),
        dst_names: vec![DstName {
            namespace: 0,
            name: String::from("renamed_a"),
        }],
        fields: vec![FieldMapping {
            src_name: String::from("f"),
            src_desc: Some(String::from("I")),
            dst_names: vec![],
            dst_descs: vec![],
            comment: None,
        }],
        methods: vec![],
        comment: Some(String::from("skipped comment")),
    });
    tree.classes.push(simple_class("kept"));

    let mut recorder = Recorder::new();
    recorder.skip_classes.push(String::from("a"));
    assert_eq!(run_pass(&tree, &mut recorder), Ok(true));
    // nothing of class "a" below its begin callback, but the next class and
    // the end-of-pass callback still happen
    assert_eq!(
        recorder.events,
        vec![
            "header",
            "namespaces named [\"intermediary\"]",
            "content",
            "class a",
            "class kept",
            "element_content Class",
            "end",
        ]
    );
}

#[test]
fn skipping_the_header_skips_namespaces_and_metadata() {
    let mut tree = empty_tree();
    tree.metadata
        .push((String::from("k"), String::from("v")));
    tree.classes.push(simple_class("a"));
    let mut recorder = Recorder::new();
    recorder.skip_header = true;
    assert_eq!(run_pass(&tree, &mut recorder), Ok(true));
    assert_eq!(
        recorder.events,
        vec!["header", "content", "class a", "element_content Class", "end"]
    );
}

#[test]
fn skipping_the_content_skips_every_class() {
    let mut tree = empty_tree();
    tree.classes.push(simple_class("a"));
    tree.classes.push(simple_class("b"));
    let mut recorder = Recorder::new();
    recorder.skip_content = true;
    assert_eq!(run_pass(&tree, &mut recorder), Ok(true));
    assert_eq!(
        recorder.events,
        vec!["header", "namespaces named [\"intermediary\"]", "content", "end"]
    );
}

#[test]
fn restart_without_the_flag_is_an_error() {
    let tree = empty_tree();
    let mut recorder = Recorder::new();
    recorder.final_after_passes = 2;
    // the recorder does not declare NeedsMultiplePasses: requesting another
    // pass must fail fast, not silently loop or silently succeed
    assert_eq!(
        accept(&tree, &mut recorder, 10),
        Err(VisitError::UnsupportedMultiplePasses)
    );
    assert_eq!(recorder.passes, 1);
}

#[test]
fn restart_with_the_flag_runs_another_pass() {
    let tree = empty_tree();
    let mut recorder = Recorder::new();
    recorder.flags = MappingFlags::empty().with(MappingFlag::NeedsMultiplePasses);
    recorder.final_after_passes = 3;
    assert_eq!(accept(&tree, &mut recorder, 10), Ok(true));
    assert_eq!(recorder.passes, 3);
}

#[test]
fn pass_budget_can_run_out() {
    let tree = empty_tree();
    let mut recorder = Recorder::new();
    recorder.flags = MappingFlags::empty().with(MappingFlag::NeedsMultiplePasses);
    recorder.final_after_passes = 5;
    assert_eq!(accept(&tree, &mut recorder, 2), Ok(false));
    assert_eq!(recorder.passes, 2);
}

#[test]
fn missing_field_descriptor_aborts_the_pass() {
    let mut tree = empty_tree();
    tree.classes.push(ClassMapping {
        src_name: String::from("a"),
        dst_names: vec![],
        fields: vec![FieldMapping {
            src_name: String::from("f"),
            src_desc: None,
            dst_names: vec![],
            dst_descs: vec![],
            comment: None,
        }],
        methods: vec![],
        comment: None,
    });
    // the Tiny v2 writer declares NeedsSrcFieldDesc: a producer that omits
    // the descriptor must make the pass fail
    let mut writer = Tiny2Writer::new(String::new());
    assert_eq!(
        accept(&tree, &mut writer, 1),
        Err(VisitError::MissingSrcDesc)
    );
}

/// A consumer whose output target always rejects the class write.
struct FailingSink;

impl MappingVisitor for FailingSink {
    fn flags(&self) -> MappingFlags {
        MappingFlags::empty()
    }

    fn visit_namespaces(&mut self, _src: &str, _dsts: &[&str]) -> VisitResult<()> {
        Ok(())
    }

    fn visit_class(&mut self, _src_name: &str) -> VisitResult<bool> {
        Err(VisitError::Sink)
    }

    fn visit_field(&mut self, _src_name: &str, _src_desc: Option<&str>) -> VisitResult<bool> {
        Ok(true)
    }

    fn visit_method(&mut self, _src_name: &str, _src_desc: Option<&str>) -> VisitResult<bool> {
        Ok(true)
    }

    fn visit_method_arg(
        &mut self,
        _arg_position: i32,
        _lv_index: i32,
        _src_name: Option<&str>,
    ) -> VisitResult<bool> {
        Ok(true)
    }

    fn visit_method_var(
        &mut self,
        _lvt_row_index: i32,
        _lv_index: i32,
        _start_op_idx: i32,
        _src_name: Option<&str>,
    ) -> VisitResult<bool> {
        Ok(true)
    }

    fn visit_dst_name(
        &mut self,
        _target_kind: MappedElementKind,
        _namespace: usize,
        _name: &str,
    ) -> VisitResult<()> {
        Ok(())
    }

    fn visit_element_content(&mut self, _target_kind: MappedElementKind) -> VisitResult<bool> {
        Ok(true)
    }

    fn visit_comment(&mut self, _target_kind: MappedElementKind, _comment: &str) -> VisitResult<()> {
        Ok(())
    }
}

#[test]
fn sink_failure_aborts_the_pass() {
    let mut tree = empty_tree();
    tree.classes.push(simple_class("a"));
    let mut sink = FailingSink;
    assert_eq!(run_pass(&tree, &mut sink), Err(VisitError::Sink));
}
