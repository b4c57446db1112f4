use glycin::api::{SandboxMechanism, SandboxSelector};
use glycin::sandbox::{
    allowed_syscalls, blocked_syscall_message, default_filter_action, listed_filter_action,
    FilterAction, RootEntryKind, Sandbox, SystemSetup, DEFAULT_MEMORY_LIMIT,
};

fn s(text: &str) -> String {
    text.to_string()
}

fn lines(text: &str) -> Vec<String> {
    text.lines().map(s).collect()
}

const FIXED: [&str; 29] = [
    "--unshare-all", "--clearenv", "--die-with-parent", "--chdir", "/", "--ro-bind", "/usr", "/usr",
    "--dev", "/dev", "--ro-bind-try", "/etc/ld.so.cache", "/etc/ld.so.cache", "--tmpfs", "/tmp-home",
    "--setenv", "HOME", "/tmp-home", "--tmpfs", "/tmp-run", "--setenv", "XDG_RUNTIME_DIR", "/tmp-run",
    "--ro-bind-try", "/etc/fonts", "/etc/fonts", "--ro-bind-try", "/var/cache/fontconfig",
    "/var/cache/fontconfig",
];

#[test]
fn the_sandbox_is_chosen_by_the_host_where_nothing_else_is_said() {
    assert_eq!(SandboxSelector::default(), SandboxSelector::Auto);
    assert_eq!(SandboxSelector::Auto.determine_sandbox_mechanism(true), SandboxMechanism::FlatpakSpawn);
    assert_eq!(SandboxSelector::Auto.determine_sandbox_mechanism(false), SandboxMechanism::Bwrap);
    for flatpaked in [true, false] {
        assert_eq!(SandboxSelector::Bwrap.determine_sandbox_mechanism(flatpaked), SandboxMechanism::Bwrap);
        assert_eq!(
            SandboxSelector::FlatpakSpawn.determine_sandbox_mechanism(flatpaked),
            SandboxMechanism::FlatpakSpawn
        );
        assert_eq!(
            SandboxSelector::NotSandboxed.determine_sandbox_mechanism(flatpaked),
            SandboxMechanism::NotSandboxed
        );
    }
    assert_eq!(SandboxMechanism::detect(true), SandboxMechanism::FlatpakSpawn);
    assert_eq!(SandboxMechanism::detect(false), SandboxMechanism::Bwrap);
    assert_eq!(SandboxMechanism::Bwrap.into_selector(), SandboxSelector::Bwrap);
    assert_eq!(SandboxMechanism::FlatpakSpawn.into_selector(), SandboxSelector::FlatpakSpawn);
    assert_eq!(SandboxMechanism::NotSandboxed.into_selector(), SandboxSelector::NotSandboxed);
    assert!(SandboxSelector::Auto.needs_detection());
    assert!(!SandboxSelector::Bwrap.needs_detection());
    let selectors = [
        SandboxSelector::Auto,
        SandboxSelector::Bwrap,
        SandboxSelector::FlatpakSpawn,
        SandboxSelector::NotSandboxed,
    ];
    for (number, selector) in selectors.iter().enumerate() {
        assert_eq!(selector.number(), number as i32);
        assert_eq!(SandboxSelector::from_number(number as i32), Some(*selector));
    }
    assert_eq!(SandboxSelector::from_number(4), None);
    assert_eq!(SandboxSelector::from_number(-1), None);
}

#[test]
fn the_namespace_sandbox_of_a_loader_in_usr() {
    let sandbox = Sandbox::new(SandboxMechanism::Bwrap, s("/usr/libexec/glycin-loaders/1+/png"));
    let system = SystemSetup::new();
    let args = sandbox.bwrap_args(&system);
    assert_eq!(args, FIXED.iter().map(|x| s(x)).collect::<Vec<_>>());
    assert!(sandbox.needs_seccomp());
    let line = sandbox.command_line(&system, Some(7), 1 << 30);
    assert_eq!(line.bin, "bwrap");
    assert!(line.set_memory_limit);
    assert_eq!(line.args[..29], args[..]);
    assert_eq!(line.args[29..], [s("--seccomp"), s("7"), s("/usr/libexec/glycin-loaders/1+/png")]);
}

#[test]
fn links_directories_and_the_loader_are_added_in_their_order() {
    let mut system = SystemSetup::new();
    system.add_dir(s("/lib64"), "lib64", RootEntryKind::Symlink { target: s("/usr/lib64") });
    system.add_dir(s("/lib"), "lib", RootEntryKind::Symlink { target: s("/usr/lib") });
    system.add_dir(s("/lib32"), "lib32", RootEntryKind::Directory);
    system.add_dir(s("/libfoo"), "libfoo", RootEntryKind::Symlink { target: s("/opt/libfoo") });
    system.add_dir(s("/libbar"), "libbar", RootEntryKind::Symlink { target: s("/usrlocal/lib") });
    system.add_dir(s("/libusr"), "libusr", RootEntryKind::Symlink { target: s("/usr") });
    system.add_dir(s("/etc"), "etc", RootEntryKind::Directory);
    system.add_dir(s("/bin"), "bin", RootEntryKind::Symlink { target: s("/usr/bin") });
    system.add_dir(s("/libx.so"), "libx.so", RootEntryKind::Other);
    assert_eq!(system.lib_dirs, vec![s("/lib32")]);
    // A path lies in `/usr/` by its components, so `/usr` itself does.
    assert_eq!(
        system.lib_symlinks,
        vec![(s("/lib64"), s("/usr/lib64")), (s("/lib"), s("/usr/lib")), (s("/libusr"), s("/usr"))]
    );
    assert!(SystemSetup::is_lib_entry("lib"));
    assert!(SystemSetup::is_lib_entry("libexec"));
    assert!(!SystemSetup::is_lib_entry("li"));
    assert!(!SystemSetup::is_lib_entry("Lib"));
    assert!(!SystemSetup::is_lib_entry("usr-lib"));

    let mut sandbox = Sandbox::new(SandboxMechanism::Bwrap, s("/home/me/loaders/png"));
    sandbox.add_ro_bind(s("/home/me/Pictures"));
    sandbox.add_ro_bind(s("/media/stick"));
    let args = sandbox.bwrap_args(&system);
    let tail: Vec<&str> = args[29..].iter().map(|x| x.as_str()).collect();
    assert_eq!(
        tail,
        vec![
            "--symlink", "/usr/lib64", "/lib64", "--symlink", "/usr/lib", "/lib", "--symlink", "/usr",
            "/libusr", "--ro-bind", "/lib32", "/lib32", "--ro-bind", "/home/me/Pictures", "/home/me/Pictures", "--ro-bind", "/media/stick",
            "/media/stick", "--ro-bind", "/home/me/loaders/png", "/home/me/loaders/png",
        ]
    );
    let line = sandbox.command_line(&system, Some(12), 5);
    assert_eq!(line.args.len(), 29 + 21 + 3);
    assert_eq!(line.args[50..], [s("--seccomp"), s("12"), s("/home/me/loaders/png")]);
}

#[test]
fn a_path_is_in_usr_by_its_components() {
    let system = SystemSetup::new();
    for (command, bound) in [
        ("/usr/bin/loader", false),
        ("/usr", false),
        ("/usr/", false),
        ("/usrlocal/loader", true),
        ("/opt/usr/loader", true),
        ("usr/loader", true),
        ("/home/me/loader", true),
    ] {
        let sandbox = Sandbox::new(SandboxMechanism::Bwrap, s(command));
        let args = sandbox.bwrap_args(&system);
        assert_eq!(args.len(), if bound { 32 } else { 29 }, "{command}");
        if bound {
            assert_eq!(args[29..], [s("--ro-bind"), s(command), s(command)]);
        }
    }
}

#[test]
fn the_portal_gets_the_memory_limit_as_an_argument() {
    let sandbox = Sandbox::new(SandboxMechanism::FlatpakSpawn, s("/app/libexec/png"));
    assert!(!sandbox.needs_seccomp());
    let line = sandbox.command_line(&SystemSetup::new(), None, 8422162432);
    assert_eq!(line.bin, "flatpak-spawn");
    assert!(!line.set_memory_limit);
    assert_eq!(
        line.args,
        vec![
            s("--sandbox"),
            s("--watch-bus"),
            s("--directory=/"),
            s("prlimit"),
            s("--as=8422162432"),
            s("/app/libexec/png")
        ]
    );
    let line = sandbox.command_line(&SystemSetup::new(), None, 0);
    assert_eq!(line.args[4], "--as=0");
    let line = sandbox.command_line(&SystemSetup::new(), None, u64::MAX);
    assert_eq!(line.args[4], "--as=18446744073709551615");
}

#[test]
fn without_a_sandbox_the_loader_is_started_as_it_is() {
    let mut sandbox = Sandbox::new(SandboxMechanism::NotSandboxed, s("/usr/libexec/png"));
    sandbox.add_ro_bind(s("/tmp"));
    let line = sandbox.command_line(&SystemSetup::new(), None, 1);
    assert_eq!(line.bin, "/usr/libexec/png");
    assert!(line.args.is_empty());
    assert!(!line.set_memory_limit);
}

#[test]
fn the_memory_limit_is_four_fifths_of_what_is_considered() {
    const MIB: u64 = 1024 * 1024;
    const GIB: u64 = 1024 * MIB;
    assert_eq!(Sandbox::calculate_memory_limit(0), 0);
    assert_eq!(Sandbox::calculate_memory_limit(200 * MIB), 0);
    assert_eq!(Sandbox::calculate_memory_limit(200 * MIB + 1), 0);
    assert_eq!(Sandbox::calculate_memory_limit(200 * MIB + 5), 4);
    assert_eq!(Sandbox::calculate_memory_limit(8 * GIB), 6704175513);
    assert_eq!(Sandbox::calculate_memory_limit(10 * GIB), 8422162432);
    assert_eq!(Sandbox::calculate_memory_limit(10 * GIB + 7), 8422162432);
    assert_eq!(Sandbox::calculate_memory_limit(u64::MAX), 8422162432);
    // The same numbers in floating point.
    let mut available: u64 = 1;
    while available < 12 * GIB {
        let considered = available.min(10 * GIB).saturating_sub(200 * MIB);
        assert_eq!(Sandbox::calculate_memory_limit(available), (considered as f64 * 0.8) as u64);
        available = available * 3 + 1;
    }
    for step in 0..2000u64 {
        let available = 200 * MIB + step;
        let considered = available - 200 * MIB;
        assert_eq!(Sandbox::calculate_memory_limit(available), (considered as f64 * 0.8) as u64);
        let available = 10 * GIB - step;
        let considered = available - 200 * MIB;
        assert_eq!(Sandbox::calculate_memory_limit(available), (considered as f64 * 0.8) as u64);
    }
}

#[test]
fn the_available_memory_is_read_from_its_line() {
    let meminfo = lines(
        "MemTotal:       32594300 kB\nMemFree:         1394940 kB\nMemAvailable:   21167256 kB\nBuffers:          791020 kB\n",
    );
    assert_eq!(Sandbox::mem_available(&meminfo), Some(21167256 * 1024));
    assert_eq!(Sandbox::memory_limit(Some(&meminfo)), (10 * 1024 * 1024 * 1024 - 200 * 1024 * 1024) / 5 * 4);
    assert_eq!(Sandbox::memory_limit(None), DEFAULT_MEMORY_LIMIT);
    assert_eq!(DEFAULT_MEMORY_LIMIT, 1024 * 1024 * 1024);
    assert_eq!(Sandbox::memory_limit(Some(&lines("MemTotal: 5 kB"))), 1 << 30);
    assert_eq!(Sandbox::memory_limit(Some(&vec![])), 1 << 30);
    assert_eq!(Sandbox::mem_available(&lines("MemAvailable: 1 kB")), Some(1024));
    assert_eq!(Sandbox::mem_available(&lines("MemAvailable: +12")), Some(12288));
    assert_eq!(Sandbox::mem_available(&lines("MemAvailable:1 kB")), None);
    assert_eq!(Sandbox::mem_available(&lines("MemAvailable:")), None);
    assert_eq!(Sandbox::mem_available(&lines("MemAvailable:    ")), None);
    assert_eq!(Sandbox::mem_available(&lines("MemAvailable: 12x kB")), None);
    assert_eq!(Sandbox::mem_available(&lines("MemAvailable: -1 kB")), None);
    assert_eq!(Sandbox::mem_available(&lines("MemAvailable:\t7 kB")), None);
    assert_eq!(Sandbox::mem_available(&lines(" MemAvailable: 7 kB")), None);
    assert_eq!(Sandbox::mem_available(&lines("memavailable: 7 kB")), None);
    assert_eq!(Sandbox::mem_available(&lines("MemAvailable: 18446744073709551615 kB")), Some(u64::MAX));
    assert_eq!(Sandbox::mem_available(&lines("MemAvailable: 18446744073709551616 kB")), None);
    assert_eq!(Sandbox::mem_available(&lines("MemAvailable: 18014398509481984 kB")), Some(u64::MAX));
    assert_eq!(Sandbox::mem_available(&lines("MemAvailable: 18014398509481983 kB")), Some(u64::MAX - 1023));
    // A line that cannot be read does not hide a later one that can.
    assert_eq!(Sandbox::mem_available(&lines("MemAvailable: many\nMemAvailable: 3 kB")), Some(3072));
    assert_eq!(Sandbox::mem_available(&lines("MemAvailable: 2 kB\nMemAvailable: 3 kB")), Some(2048));
}

#[test]
fn every_call_off_the_list_is_trapped() {
    assert_eq!(default_filter_action(), FilterAction::Trap);
    assert_eq!(listed_filter_action(), FilterAction::Allow);
    let names = allowed_syscalls();
    assert_eq!(names.len(), 107);
    assert_eq!(names[0], "access");
    assert_eq!(names[106], "write");
    for needed in ["mmap", "read", "write", "close", "futex", "memfd_create", "recvmsg", "sendmsg", "clone3"] {
        assert!(names.iter().any(|x| x == needed), "{needed}");
    }
    for refused in [
        "ptrace", "process_vm_writev", "process_vm_readv", "setns", "unshare", "keyctl", "add_key",
        "request_key", "mount", "kexec_load", "init_module", "bpf",
    ] {
        assert!(!names.iter().any(|x| x == refused), "{refused}");
    }
    let mut sorted = names.clone();
    sorted.sort();
    assert_eq!(sorted, names);
}

#[test]
fn a_trapped_call_is_named_in_one_line() {
    assert_eq!(
        blocked_syscall_message(Some(s("ptrace")), 101),
        "glycin sandbox: Blocked syscall used: 'ptrace' (101)"
    );
    assert_eq!(
        blocked_syscall_message(None, 9999),
        "glycin sandbox: Blocked syscall used: 'Unknown Syscall' (9999)"
    );
    assert_eq!(
        blocked_syscall_message(None, -1),
        "glycin sandbox: Blocked syscall used: 'Unknown Syscall' (-1)"
    );
    assert_eq!(
        blocked_syscall_message(Some(s("x")), i32::MIN),
        "glycin sandbox: Blocked syscall used: 'x' (-2147483648)"
    );
    assert!(!blocked_syscall_message(Some(s("open")), 2).contains('\n'));
}
