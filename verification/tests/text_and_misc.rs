use cloude_vmm::build_plan::{code_dest_path, Builder};
use cloude_vmm::cmdline::assemble_cmdline;
use cloude_vmm::net_setup::{
    default_bridge_ip, default_bridge_name, is_subnet_match, is_target_nat_rule, nat_subnet_addr,
};
use cloude_vmm::numfmt::u64_to_dec_string;
use cloude_vmm::stdin::{stdin_event_action, StdinAction, STDIN_CHUNK, STDIN_DATA};

#[test]
fn decimal_rendering_is_exact() {
    assert_eq!(u64_to_dec_string(0), "0");
    assert_eq!(u64_to_dec_string(7), "7");
    assert_eq!(u64_to_dec_string(256), "256");
    assert_eq!(u64_to_dec_string(u64::MAX), "18446744073709551615");
}

#[test]
fn cmdline_joins_base_and_fragments() {
    let fragments = vec![
        " virtio_mmio.device=4K@0xd0000000:5".to_string(),
        " virtio_mmio.device=4K@0xd0001000:6".to_string(),
    ];
    let joined = assemble_cmdline("console=ttyS0 quiet panic=-1", &fragments);
    assert_eq!(
        joined,
        "console=ttyS0 quiet panic=-1 virtio_mmio.device=4K@0xd0000000:5 virtio_mmio.device=4K@0xd0001000:6"
    );
}

#[test]
fn cmdline_without_devices_is_the_base() {
    let joined = assemble_cmdline("maxcpus=2", &Vec::new());
    assert_eq!(joined, "maxcpus=2");
}

#[test]
fn builder_plans_its_paths() {
    let builder = Builder::new("build");
    assert_eq!(builder.init_script_path(), "build/init.sh");
    assert_eq!(builder.image_output_path("py"), "build/agent-py.cpio.gz");
    assert_eq!(code_dest_path("rs"), "/lambda/code.rs");
}

#[test]
fn stdin_decisions_follow_the_event() {
    assert_eq!(stdin_event_action(false, STDIN_DATA, true, 4), StdinAction::Skip);
    assert_eq!(stdin_event_action(true, 7, true, 4), StdinAction::Skip);
    assert_eq!(stdin_event_action(true, STDIN_DATA, false, 0), StdinAction::LogReadError);
    assert_eq!(stdin_event_action(true, STDIN_DATA, true, 1), StdinAction::Enqueue);
    assert_eq!(stdin_event_action(true, STDIN_DATA, true, 0), StdinAction::Deregister);
    assert_eq!(STDIN_CHUNK, 64);
}

#[test]
fn network_defaults_are_fixed() {
    assert_eq!(default_bridge_name(), "cloudebr0");
    assert_eq!(default_bridge_ip(), "192.168.39.39");
    assert_eq!(nat_subnet_addr(), "192.168.39.0");
}

#[test]
fn subnet_match_is_exact() {
    assert!(is_subnet_match("192.168.39.0", 24));
    assert!(!is_subnet_match("192.168.39.0", 16));
    assert!(!is_subnet_match("192.168.40.0", 24));
    assert!(!is_subnet_match("", 24));
}

#[test]
fn nat_rule_predicate_requires_every_part() {
    assert!(is_target_nat_rule(true, "nat", "POSTROUTING", true, true));
    assert!(!is_target_nat_rule(false, "nat", "POSTROUTING", true, true));
    assert!(!is_target_nat_rule(true, "filter", "POSTROUTING", true, true));
    assert!(!is_target_nat_rule(true, "nat", "PREROUTING", true, true));
    assert!(!is_target_nat_rule(true, "nat", "POSTROUTING", false, true));
    assert!(!is_target_nat_rule(true, "nat", "POSTROUTING", true, false));
}
