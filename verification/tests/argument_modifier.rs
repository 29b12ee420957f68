use fctools::executor::argument_modifier::{
    apply_argument_modifier_chain, AppendCommandModifier, ArgumentModifier, NetnsArgumentModifier,
    RewriteArgumentModifier,
};

fn strings(items: &[&str]) -> Vec<String> {
    items.iter().map(|s| s.to_string()).collect()
}

#[test]
fn netns_argument_modifier_prepends_namespace_invocation() {
    let mut args = strings(&["firecracker", "--no-api"]);
    NetnsArgumentModifier::new("ns0").modify_args(&mut args);
    assert_eq!(args, strings(&["/usr/sbin/ip", "netns", "exec", "ns0", "firecracker", "--no-api"]));

    let mut args = strings(&["x"]);
    NetnsArgumentModifier::new("ns1").iproute2_path("/bin/ip").modify_args(&mut args);
    assert_eq!(args, strings(&["/bin/ip", "netns", "exec", "ns1", "x"]));
}

#[test]
fn append_and_rewrite_argument_modifiers() {
    let mut args = strings(&["a"]);
    AppendCommandModifier::new().arg("b").arg("c").modify_args(&mut args);
    assert_eq!(args, strings(&["a", "b", "c"]));

    let mut args = strings(&["a", "b"]);
    RewriteArgumentModifier::with_capacity(2).arg("z").modify_args(&mut args);
    assert_eq!(args, strings(&["z"]));

    let mut args = strings(&["a", "b"]);
    RewriteArgumentModifier::new().modify_args(&mut args);
    assert!(args.is_empty());

    let mut args = strings(&["a"]);
    AppendCommandModifier::with_capacity(0).modify_args(&mut args);
    assert_eq!(args, strings(&["a"]));
}

#[test]
fn argument_modifier_chain_applies_in_order() {
    let modifiers: Vec<Box<dyn ArgumentModifier>> = vec![
        Box::new(AppendCommandModifier::new().arg("--x")),
        Box::new(NetnsArgumentModifier::new("n")),
    ];
    let mut args = strings(&["fc"]);
    apply_argument_modifier_chain(&mut args, &modifiers);
    assert_eq!(args, strings(&["/usr/sbin/ip", "netns", "exec", "n", "fc", "--x"]));
}
