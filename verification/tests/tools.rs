use ragent::error::RagentError;
use ragent::tool_call::bash::{check_dangerous, format_output, BashStep, BashTool, CommandRun};
use ragent::tool_call::edit_file::EditFileTool;
use ragent::tool_call::function_type::ToolFunctionType;
use ragent::tool_call::glob_file::GlobFileTool;
use ragent::tool_call::read_file::ReadFileTool;
use ragent::tool_call::tool::{
    arguments_error_message, tool_schema_of, FunctionTool, ParamKind, ToolRegistry, ToolResult,
};
use ragent::tool_call::write_file::WriteFileTool;

#[test]
fn dangerous_commands_are_blocked() {
    for cmd in [
        "sudo",
        "sudo rm x",
        "ls; sudo ls",
        "echo hi && sudo reboot",
        "echo x | sudo",
        "shutdown -h now",
        "reboot",
        "halt",
        "poweroff",
        "rm -rf /",
        "rm -r /tmp/x",
        "rm -rf /*",
        "dd if=/dev/zero of=/dev/sda",
        "mkfs.ext4 /dev/sdb1",
        "cat x > /dev/sda",
        "echo sudo; ls",
        "sudo\tls",
        "reboot\n",
        "halt\u{3000}now",
    ] {
        let r = check_dangerous(cmd);
        assert_eq!(r, Some(format!("Error: Dangerous command blocked: {}", cmd)), "{}", cmd);
    }
}

#[test]
fn harmless_commands_pass() {
    for cmd in [
        "ls -la",
        "echo sudoku",
        "cat halting.txt",
        "rm -rf build",
        "rm -rf ./target",
        "dd if=a of=b",
        "pseudo",
        "",
        "mkfs.ext4 image.img",
        "sudoers\tls",
    ] {
        assert_eq!(check_dangerous(cmd), None, "{}", cmd);
    }
}

#[test]
fn format_output_cases() {
    assert_eq!(format_output(true, "exit status: 0", "out", ""), "out");
    assert_eq!(format_output(true, "exit status: 0", "out", "warn"), "out\nstderr:\nwarn");
    assert_eq!(
        format_output(false, "exit status: 2", "o", "e"),
        "exit code: exit status: 2\nstdout:\no\nstderr:\ne"
    );
}

#[test]
fn bash_plan_and_finish() {
    let tool = BashTool;
    match tool.plan(Err("missing field `command`".to_string())) {
        BashStep::Reply(m) => assert_eq!(m, "Error parsing arguments: missing field `command`"),
        BashStep::Run(_) => panic!("should not run"),
    }
    match tool.plan(Ok("sudo ls".to_string())) {
        BashStep::Reply(m) => assert_eq!(m, "Error: Dangerous command blocked: sudo ls"),
        BashStep::Run(_) => panic!("should not run"),
    }
    match tool.plan(Ok("ls".to_string())) {
        BashStep::Run(c) => assert_eq!(c, "ls"),
        BashStep::Reply(_) => panic!("should run"),
    }
    assert_eq!(
        tool.finish(&CommandRun::NoWorkingDir("gone".into())),
        "Error failed to get current directory: gone"
    );
    assert_eq!(
        tool.finish(&CommandRun::SpawnFailed("no sh".into())),
        "Error: failed to execute command: no sh"
    );
    assert_eq!(
        tool.finish(&CommandRun::Exited {
            success: true,
            status: "exit status: 0".into(),
            stdout: "hello\n".into(),
            stderr: String::new(),
        }),
        "hello\n"
    );
}

#[test]
fn tool_kinds_and_schemas() {
    assert_eq!(BashTool.tool_type(), ToolFunctionType::Bash);
    assert_eq!(ReadFileTool.tool_type(), ToolFunctionType::ReadFile);
    assert_eq!(WriteFileTool.tool_type(), ToolFunctionType::WriteFile);
    assert_eq!(EditFileTool.tool_type(), ToolFunctionType::EditFile);
    assert_eq!(GlobFileTool.tool_type(), ToolFunctionType::Glob);
    let s = BashTool.tool_schema();
    assert_eq!(s.name, "bash");
    assert_eq!(s.description, "Run a shell command.");
    assert_eq!(s.params.len(), 1);
    assert_eq!(s.params[0].name, "command");
    assert_eq!(s.params[0].kind.as_str(), "string");
    assert_eq!(s.required, vec!["command"]);
    let r = ReadFileTool.tool_schema();
    assert_eq!(r.params[1].name, "limit");
    assert_eq!(r.params[1].kind, ParamKind::Integer);
    assert_eq!(r.params[1].kind.as_str(), "integer");
    assert_eq!(r.required, vec!["path"]);
    let e = tool_schema_of(ToolFunctionType::EditFile);
    assert_eq!(e.name, "edit_file");
    assert_eq!(e.description, "Replace exact text in a file once");
    assert_eq!(e.required, vec!["path", "old_text", "new_text"]);
    let g = GlobFileTool.tool_schema();
    assert_eq!(g.description, "Find files matching a glob pattern");
    assert_eq!(g.required, vec!["path", "pattern"]);
    let w = WriteFileTool.tool_schema();
    assert_eq!(w.description, "Write content to a file.");
    assert_eq!(w.required, vec!["path", "content"]);
}

#[test]
fn tool_reports() {
    let ok: Result<String, RagentError> = Ok("contents".into());
    assert_eq!(ReadFileTool.report("a.txt", &ok), "contents");
    let err: Result<String, RagentError> = Err(RagentError::PathEscape("Path escapes workspace: ../x".into()));
    assert_eq!(
        ReadFileTool.report("../x", &err),
        "Error reading file ../x: Path escapes workspace: Path escapes workspace: ../x"
    );
    let io: Result<String, RagentError> = Err(RagentError::Io("denied".into()));
    assert_eq!(WriteFileTool.report("f", &io), "Error writing file f: IO error: denied");
    let nf: Result<String, RagentError> = Err(RagentError::TextNotFound("abc".into()));
    assert_eq!(EditFileTool.report("f", &nf), "Error editing file f: Text not found at path: abc");
    let ne: Result<String, RagentError> = Err(RagentError::PathNotExist("/w/d".into()));
    assert_eq!(GlobFileTool.report("d", &ne), "Error globing file d: Path not exist: /w/d");
    assert_eq!(arguments_error_message("eof"), "Error parsing arguments: eof");
}

#[test]
fn tool_result_new() {
    let r = ToolResult::new("call_1", "done".to_string());
    assert_eq!(r.result_type, "tool_result");
    assert_eq!(r.tool_use_id, "call_1");
    assert_eq!(r.content, "done");
    let c = r.clone();
    assert_eq!(c.content, "done");
}

#[test]
fn registry_register_and_resolve() {
    let mut reg = ToolRegistry::new();
    assert!(reg.schemas().is_empty());
    reg.register(BashTool);
    reg.register(BashTool);
    reg.register(GlobFileTool);
    assert!(reg.contains(ToolFunctionType::Bash));
    assert!(reg.contains(ToolFunctionType::Glob));
    assert!(!reg.contains(ToolFunctionType::ReadFile));
    let names: Vec<&str> = reg.schemas().iter().map(|s| s.name).collect();
    assert_eq!(names, vec!["bash", "glob"]);
    assert_eq!(reg.resolve(ToolFunctionType::Glob, "id").unwrap(), ToolFunctionType::Glob);
    let missing = reg.resolve(ToolFunctionType::ReadFile, "id7").unwrap_err();
    assert_eq!(missing.tool_use_id, "id7");
    assert_eq!(missing.content, "Tool not found: ReadFile");
}

#[test]
fn tool_function_type_names() {
    for t in [
        ToolFunctionType::Bash,
        ToolFunctionType::ReadFile,
        ToolFunctionType::WriteFile,
        ToolFunctionType::EditFile,
        ToolFunctionType::Glob,
    ] {
        assert_eq!(ToolFunctionType::from_str(t.as_str()).unwrap(), t);
    }
    assert_eq!(ToolFunctionType::ReadFile.as_str(), "read_file");
    assert_eq!(
        ToolFunctionType::from_str("grep").unwrap_err(),
        "Unknown tool function type grep"
    );
    let parsed: ToolFunctionType = "edit_file".parse().unwrap();
    assert_eq!(parsed, ToolFunctionType::EditFile);
    assert_eq!(ToolFunctionType::WriteFile.debug_name(), format!("{:?}", ToolFunctionType::WriteFile));
}
