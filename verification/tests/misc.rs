use rebg::analyzer::syscall::{
    decompose_syscall, syscall_parts, StateUpdate, SyscallError, SyscallParts, SyscallState,
};
use rebg::arch::Arch;
use rebg::host::docker::{Docker, DockerArgs, DockerStart};
use rebg::host::native::NativeArgs;
use rebg::text::{
    base_name, chars_of, parse_i32, parse_u64, push_decimal, push_hex, split_at_char,
    strip_prefix, strip_suffix,
};
use rebg::tracer::qemu::QEMU;
use rebg::tracer::qiling::Qiling;
use rebg::tracer::RecordKind::{Final, LibLoad, TraceStep};
use rebg::tracer::{ParsedStep, Phase, ProcessOutput, ProtocolError, TraceTypes};

#[test]
fn numbers_are_read_as_the_standard_library_reads_them() {
    for s in [
        "", "0", "7", "+7", "-7", "007", "+", "-", "+-1", "--1", "1a", "a", " 1", "1 ", "١",
        "2147483647", "2147483648", "-2147483648", "-2147483649", "99999999999999999999",
        "18446744073709551615", "18446744073709551616", "+0", "-0", "ff", "FF", "0x10",
        "ffffffffffffffff", "10000000000000000", "+ff", "-ff", "g", "1_000",
    ] {
        assert_eq!(parse_i32(s), s.parse::<i32>().ok(), "i32 of {:?}", s);
        assert_eq!(parse_u64(s, 10), s.parse::<u64>().ok(), "u64 of {:?}", s);
        assert_eq!(parse_u64(s, 16), u64::from_str_radix(s, 16).ok(), "hex of {:?}", s);
    }
    assert_eq!(parse_i32("-2147483648"), Some(i32::MIN));
    assert_eq!(parse_u64("18446744073709551615", 10), Some(u64::MAX));
    assert_eq!(parse_u64("DeadBeef", 16), Some(0xdead_beef));
}

#[test]
fn numbers_are_written_without_leading_zeros() {
    for n in [0u64, 1, 9, 10, 15, 16, 255, 256, 4096, 1234567890, u64::MAX, u64::MAX / 3] {
        let mut d = String::from("d=");
        push_decimal(&mut d, n);
        assert_eq!(d, format!("d={}", n));
        let mut h = String::from("h=");
        push_hex(&mut h, n);
        assert_eq!(h, format!("h={:x}", n));
    }
}

#[test]
fn texts_are_split_and_stripped_as_the_standard_library_does() {
    for s in ["", ",", "a", "a,b", "a,,b", ",a,", "a, b ,c", "äö,ü", ",,,"] {
        let expected: Vec<String> = s.split(',').map(|x| x.to_string()).collect();
        assert_eq!(split_at_char(s, ','), expected, "split of {:?}", s);
    }
    assert_eq!(split_at_char("", ','), vec![""]);
    assert_eq!(chars_of("aä€"), vec!['a', 'ä', '€']);
    for (s, p) in [("0x10", "0x"), ("0x", "0x"), ("0", "0x"), ("", "0x"), ("x0x1", "0x"), ("äx", "ä"), ("abc", "")] {
        assert_eq!(strip_prefix(s, p), s.strip_prefix(p), "prefix {:?} of {:?}", p, s);
        assert_eq!(strip_suffix(s, p), s.strip_suffix(p), "suffix {:?} of {:?}", p, s);
    }
    assert_eq!(strip_suffix("\"file\"", "\""), Some("\"file"));
}

fn parts(name: &str, args: &[&str], ret: &str) -> SyscallParts {
    SyscallParts {
        name: name.to_string(),
        args: args.iter().map(|a| a.to_string()).collect(),
        ret: ret.to_string(),
    }
}

#[test]
fn reported_system_calls_are_taken_apart() {
    let p = decompose_syscall("openat(AT_FDCWD,\"/lib/libc.so.6\",O_RDONLY|O_CLOEXEC) = 3").unwrap();
    assert_eq!(p.name, "openat");
    assert_eq!(p.args, vec!["AT_FDCWD", "\"/lib/libc.so.6\"", "O_RDONLY|O_CLOEXEC"]);
    assert_eq!(p.ret, "3");
    let p = decompose_syscall("1234 getpid() = 1234").unwrap();
    assert_eq!(p.name, "getpid");
    assert_eq!(p.args, vec![""]);
    assert_eq!(p.ret, "1234");
    let p = decompose_syscall("mmap(NULL, 8192) = 0x7f00 and more").unwrap();
    assert_eq!(p.args, vec!["NULL", " 8192"]);
    assert_eq!(p.ret, "0x7f00");
    assert!(decompose_syscall("exit_group(0)").is_none());
    assert!(decompose_syscall("close(3) = -1 errno=9").is_none());
    assert!(decompose_syscall("").is_none());

    let groups = vec![Some("all".to_string()), Some("f".to_string()), Some("1,2".to_string()), Some("0".to_string())];
    let p = syscall_parts(&groups).unwrap();
    assert_eq!((p.name.as_str(), p.args.len(), p.ret.as_str()), ("f", 2, "0"));
    assert!(syscall_parts(&groups[..3].to_vec()).is_none());
    let mut missing = groups.clone();
    missing[2] = None;
    assert!(syscall_parts(&missing).is_none());
}

#[test]
fn mapped_files_are_found_through_their_descriptors() {
    let mut s = SyscallState::new();
    assert_eq!(s.register("openat(AT_FDCWD,\"/lib/libc.so.6\",O_RDONLY|O_CLOEXEC) = 3"), Ok(None));
    assert_eq!(
        s.register("mmap(NULL,2037344,PROT_READ,MAP_PRIVATE|MAP_DENYWRITE,3,0) = 0x5500000000"),
        Ok(Some(StateUpdate::Mmap {
            path: "/lib/libc.so.6".to_string(),
            addr: 0x55_0000_0000,
            offset: 0,
            size: 2037344
        }))
    );
    assert_eq!(
        s.register("mmap(0x5500022000,1540096,PROT_READ|PROT_EXEC,MAP_PRIVATE|MAP_FIXED,3,0x22000) = 0x5500022000"),
        Ok(Some(StateUpdate::Mmap {
            path: "/lib/libc.so.6".to_string(),
            addr: 0x55_0002_2000,
            offset: 0x22000,
            size: 1540096
        }))
    );
    assert_eq!(s.register("mmap(NULL,8192,PROT_READ|PROT_WRITE,MAP_PRIVATE|MAP_ANONYMOUS,-1,0) = 0x5500201000"), Ok(None));
    assert_eq!(s.register("close(3) = 0"), Ok(None));
    assert_eq!(
        s.register("mmap(NULL,10,PROT_READ,MAP_PRIVATE,3,0) = 0x5500000000"),
        Err(SyscallError::UnknownFd)
    );
    assert_eq!(
        s.register("munmap(0x5500201000,8192) = 0"),
        Ok(Some(StateUpdate::Munmap { addr: 0x55_0020_1000, size: 8192 }))
    );
    assert_eq!(s.register("munmap(NULL,1) = 0"), Ok(Some(StateUpdate::Munmap { addr: 0, size: 1 })));
    assert_eq!(s.register("write(1,0x1234,5) = 5"), Ok(None));
}

#[test]
fn failed_close_keeps_the_descriptor() {
    let mut s = SyscallState::new();
    s.register_parts(&parts("openat", &["AT_FDCWD", "\"/a\""], "4")).unwrap();
    assert_eq!(s.register_parts(&parts("close", &["4"], "-1")), Ok(None));
    assert_eq!(
        s.register_parts(&parts("mmap", &["NULL", "1", "r", "p", "4", "0"], "0x10")),
        Ok(Some(StateUpdate::Mmap { path: "/a".to_string(), addr: 0x10, offset: 0, size: 1 }))
    );
    s.register_parts(&parts("openat", &["AT_FDCWD", "\"/b\""], "4")).unwrap();
    assert_eq!(
        s.register_parts(&parts("mmap", &["NULL", "1", "r", "p", "4", "0"], "0x10")),
        Ok(Some(StateUpdate::Mmap { path: "/b".to_string(), addr: 0x10, offset: 0, size: 1 }))
    );
}

#[test]
fn every_syscall_error_has_its_input() {
    let mut s = SyscallState::new();
    assert_eq!(s.register("no system call"), Err(SyscallError::BadFormat));
    let mut e = |name: &str, args: &[&str], ret: &str| s.register_parts(&parts(name, args, ret)).err();
    assert_eq!(e("openat", &["AT_FDCWD", "\"/a\""], "x"), Some(SyscallError::Parse));
    assert_eq!(e("openat", &["AT_FDCWD"], "3"), Some(SyscallError::BadFormat));
    assert_eq!(e("openat", &["AT_FDCWD", "/a\""], "3"), Some(SyscallError::UnqotedStringLiteral));
    assert_eq!(e("openat", &["AT_FDCWD", "\"/a"], "3"), Some(SyscallError::UnqotedStringLiteral));
    assert_eq!(e("openat", &["AT_FDCWD", "\""], "3"), Some(SyscallError::UnqotedStringLiteral));
    assert_eq!(e("openat", &["AT_FDCWD", " \"/a\""], "3"), Some(SyscallError::UnqotedStringLiteral));
    assert_eq!(e("close", &[], "0"), Some(SyscallError::BadFormat));
    assert_eq!(e("close", &["three"], "0"), Some(SyscallError::Parse));
    assert_eq!(e("close", &["3"], "zero"), Some(SyscallError::Parse));
    assert_eq!(e("mmap", &["NULL", "1", "r", "p", "3"], "0x10"), Some(SyscallError::BadFormat));
    assert_eq!(e("mmap", &["NULL", "-1", "r", "p", "3", "0"], "0x10"), Some(SyscallError::Parse));
    assert_eq!(e("mmap", &["NULL", "1", "r", "p", "x", "0"], "0x10"), Some(SyscallError::Parse));
    assert_eq!(e("mmap", &["NULL", "1", "r", "p", "3", "0"], "10"), Some(SyscallError::MissingHexPrefix));
    assert_eq!(e("mmap", &["NULL", "1", "r", "p", "3", "0"], "0xg"), Some(SyscallError::Parse));
    assert_eq!(e("mmap", &["NULL", "1", "r", "p", "3", "1"], "0x10"), Some(SyscallError::MissingHexPrefix));
    assert_eq!(e("mmap", &["NULL", "1", "r", "p", "3", "0x"], "0x10"), Some(SyscallError::Parse));
    assert_eq!(e("mmap", &["NULL", "1", "r", "p", "3", "0"], "0x10"), Some(SyscallError::UnknownFd));
    assert_eq!(e("mmap", &["NULL", "1", "r", "p", "-1", "0"], "0x10"), None);
    assert_eq!(e("munmap", &["0x10"], "0"), Some(SyscallError::BadFormat));
    assert_eq!(e("munmap", &["10", "1"], "0"), Some(SyscallError::MissingHexPrefix));
    assert_eq!(e("munmap", &["0x10", "x"], "0"), Some(SyscallError::Parse));
    assert_eq!(e("munmap", &["0x11111111111111111", "1"], "0"), Some(SyscallError::Parse));
}

#[test]
fn tracer_commands() {
    let cmd = QEMU {}.command("/tmp/prog", Arch::ARM64, "localhost");
    assert_eq!(cmd.program, "qemu-aarch64");
    assert_eq!(
        cmd.args,
        vec![
            "-rebglog",
            "/dev/null",
            "-rebgtcp",
            "localhost:1337",
            "-one-insn-per-tb",
            "-d",
            "in_asm,strace",
            "/tmp/prog"
        ]
    );
    assert_eq!(QEMU {}.command("p", Arch::X86_64, "10.0.0.1").program, "qemu-x86_64");
    assert_eq!(QEMU {}.command("p", Arch::X86_64, "10.0.0.1").args[3], "10.0.0.1:1337");
    let cmd = Qiling {}.command("/tmp/prog", Arch::X86_64, "ignored");
    assert_eq!(cmd.program, "python3");
    assert_eq!(cmd.args, vec!["../tools/ql/run.py", "../tools/ql/rootfs/x8664_linux", "/tmp/prog"]);
    assert_eq!(Qiling {}.command("p", Arch::ARM64, "").args[1], "../tools/ql/rootfs/arm64_linux");
    assert_eq!(TraceTypes::from_str("qemu"), Some(TraceTypes::Qemu));
    assert_eq!(TraceTypes::from_str("qiling"), Some(TraceTypes::Qiling));
    assert_eq!(TraceTypes::from_str("Qemu"), None);
    assert_eq!(TraceTypes::from_str(""), None);
}

#[test]
fn architecture_names() {
    for name in ["arm64", "arm", "aarch64"] {
        assert_eq!(Arch::from_arg_value(name), Ok(Arch::ARM64));
    }
    for name in ["x86_64", "amd64", "amd", "x64"] {
        assert_eq!(Arch::from_arg_value(name), Ok(Arch::X86_64));
    }
    assert_eq!(Arch::from_arg_value("mips"), Err("Unknown arch: mips".to_string()));
    assert_eq!(Arch::from_arg_value(""), Err("Unknown arch: ".to_string()));
    assert_eq!(Arch::from_elf(0xB7), Ok(Arch::ARM64));
    assert_eq!(Arch::from_elf(0x3E), Ok(Arch::X86_64));
    assert_eq!(Arch::ARM64.qemu_user_bin(), "qemu-aarch64");
    assert_eq!(Arch::X86_64.qemu_user_bin(), "qemu-x86_64");
    assert_eq!(Arch::ARM64.qiling_rootfs(), "rootfs/arm64_linux");
    assert_eq!(Arch::X86_64.qiling_rootfs(), "rootfs/x8664_linux");
    assert_eq!(Arch::ARM64.docker_platform(), "linux/arm64");
    assert_eq!(Arch::X86_64.docker_platform(), "linux/amd64");
    assert_eq!(Arch::ARM64.architecture_str(), "arm64");
    assert_eq!(Arch::X86_64.architecture_str(), "amd64");
}

#[test]
fn container_is_reused_or_started() {
    let named = DockerArgs { image: Some("mine".to_string()), container: Some("abc".to_string()) };
    match named.start("/tmp/prog".to_string(), Arch::ARM64) {
        DockerStart::Running(docker) => {
            assert_eq!(docker.id, "abc");
            assert_eq!(docker.target_arch, Arch::ARM64);
        }
        other => panic!("not running: {:?}", other),
    }
    let fresh = DockerArgs { image: None, container: None };
    match fresh.start("/tmp/prog".to_string(), Arch::X86_64) {
        DockerStart::Spawn(spawner) => {
            assert_eq!(spawner.image, "rebg:amd64");
            assert_eq!(spawner.program, "/tmp/prog");
            assert_eq!(spawner.arch, Arch::X86_64);
            let docker = spawner.spawn("f00".to_string());
            assert_eq!(docker.id, "f00");
            assert_eq!(docker.target_arch, Arch::X86_64);
        }
        other => panic!("not to be started: {:?}", other),
    }
    let image = DockerArgs { image: Some("mine".to_string()), container: None };
    match image.start("p".to_string(), Arch::ARM64) {
        DockerStart::Spawn(spawner) => assert_eq!(spawner.image, "mine"),
        other => panic!("not to be started: {:?}", other),
    }
    let _native = NativeArgs {}.start();
    assert_eq!(_native.localhost(), "localhost");
}

#[test]
fn tracer_runs_on_the_program_inside_the_container() {
    let docker = Docker { target_arch: Arch::ARM64, id: "abc".to_string() };
    let args = vec!["-d".to_string(), "in_asm".to_string(), "/home/me/bin/prog".to_string()];
    assert_eq!(
        docker.launch_args("qemu-aarch64", args).unwrap(),
        vec!["exec", "-i", "abc", "qemu-aarch64", "-d", "in_asm", "/container/prog"]
    );
    assert_eq!(
        docker.launch_args("q", vec!["dir/prog/".to_string()]).unwrap(),
        vec!["exec", "-i", "abc", "q", "/container/prog"]
    );
    assert_eq!(docker.launch_args("q", vec![]), None);
    assert_eq!(docker.launch_args("q", vec!["/".to_string()]), None);
    assert_eq!(docker.launch_args("q", vec!["a/..".to_string()]), None);
    assert_eq!(docker.launch_args("q", vec!["".to_string()]), None);
    assert_eq!(docker.launch_args("q", vec!["///".to_string()]), None);
    assert_eq!(docker.launch_args("q", vec![".".to_string()]), None);
    assert_eq!(
        docker.launch_args("q", vec!["a//b.bin//".to_string()]).unwrap(),
        vec!["exec", "-i", "abc", "q", "/container/b.bin"]
    );
    assert_eq!(
        docker.launch_args("q", vec!["prog".to_string()]).unwrap(),
        vec!["exec", "-i", "abc", "q", "/container/prog"]
    );
    assert_eq!(
        Docker::place_program(vec!["x".to_string(), "y".to_string()], "prog"),
        vec!["x", "/container/prog"]
    );
}

#[test]
fn records_come_in_their_order() {
    assert_eq!(Phase::Start.next(LibLoad), Ok(Phase::Steps));
    assert_eq!(Phase::Start.next(TraceStep), Err(ProtocolError::ExpectedLibLoad));
    assert_eq!(Phase::Start.next(Final), Err(ProtocolError::ExpectedLibLoad));
    assert_eq!(Phase::Steps.next(TraceStep), Ok(Phase::Steps));
    assert_eq!(Phase::Steps.next(LibLoad), Err(ProtocolError::UnexpectedLibLoad));
    assert_eq!(Phase::Steps.next(Final), Ok(Phase::Done));
    for kind in [LibLoad, TraceStep, Final] {
        assert_eq!(Phase::Done.next(kind), Err(ProtocolError::AfterFinal));
    }
    let end: ParsedStep<u8> =
        ParsedStep::Final(ProcessOutput { status: Some(0), stdout: vec![], stderr: vec![] });
    assert_eq!(end.kind(), Final);
    assert_eq!(ParsedStep::TraceStep(1u8).kind(), TraceStep);
    assert_eq!(ParsedStep::<u8>::LibLoad(vec![]).kind(), LibLoad);
}

#[test]
fn file_name_of_a_path() {
    assert_eq!(base_name("/usr/bin/ls"), Some("ls"));
    assert_eq!(base_name("ls"), Some("ls"));
    assert_eq!(base_name("./ls"), Some("ls"));
    assert_eq!(base_name("/usr/bin/"), Some("bin"));
    assert_eq!(base_name("/usr/bin///"), Some("bin"));
    assert_eq!(base_name("a/b/.hidden"), Some(".hidden"));
    assert_eq!(base_name("a/..."), Some("..."));
    assert_eq!(base_name("/"), None);
    assert_eq!(base_name(""), None);
    assert_eq!(base_name("a/.."), None);
    assert_eq!(base_name(".."), None);
    assert_eq!(base_name("a/."), Some("a"));
    assert_eq!(base_name("a/b/./"), Some("b"));
    assert_eq!(base_name("a/././/"), Some("a"));
    assert_eq!(base_name("/."), None);
    assert_eq!(base_name("./."), None);
    assert_eq!(base_name("."), None);
    assert_eq!(base_name("a/../."), None);
    assert_eq!(base_name("ä/ö"), Some("ö"));
}

#[test]
fn file_name_is_that_of_the_standard_library() {
    for path in [
        "", "/", "//", ".", "..", "./", "../", "a", "a/", "a//", "/a", "/a/b", "a/b/", "a/.",
        "a/./", "a/./.", "a/.//./", "a/..", "a/../", "a/../.", "/.", "/..", "./.", ".//.", "./a",
        "../a", ".a", "a.", "a/.b", "a/b.", "a/...", "...", ".../", "a/ ", " ", "ä/ö/.", "/usr/bin/ls",
        "tmp/foo.txt/.//", "a/./b/.", "a/.hidden/.", "./..", ".././",
    ] {
        let expected = std::path::Path::new(path).file_name().and_then(|n| n.to_str());
        assert_eq!(base_name(path), expected, "file name of {:?}", path);
    }
}
