use fctools::executor::command_modifier::{
    apply_command_modifier_chain, AppendCommandModifier, CommandModifier, NetnsCommandModifier, NoCommandModifier,
    ReplaceCommandModifier, RewriteCommandModifier,
};

fn assert_modifier(modifier: impl CommandModifier, from: &str, to: &str) {
    let mut command = from.to_owned();
    modifier.modify_command(&mut command);
    assert_eq!(command, to);
}

#[test]
fn no_command_modifier_does_nothing() {
    assert_modifier(NoCommandModifier::default(), "something", "something");
}

#[test]
fn netns_command_modifier_uses_default_iproute2() {
    assert_modifier(
        NetnsCommandModifier::new("test"),
        "command",
        "/usr/sbin/ip netns exec test command",
    );
}

#[test]
fn netns_command_modifier_uses_custom_iproute2() {
    assert_modifier(
        NetnsCommandModifier::new("test").iproute2_path("/custom/path"),
        "command",
        "/custom/path netns exec test command",
    );
}

#[test]
fn append_command_modifier_performs_action() {
    assert_modifier(AppendCommandModifier::new("appended"), "command", "commandappended");
}

#[test]
fn rewrite_command_modifier_performs_action() {
    assert_modifier(RewriteCommandModifier::new("rewritten"), "original", "rewritten");
}

#[test]
fn replace_command_modifier_performs_action() {
    assert_modifier(
        ReplaceCommandModifier::new().replace("a", "b").replace("c", "d"),
        "ac",
        "bd",
    );
}

#[test]
fn replace_behaves_like_str_replace() {
    for (text, from, to) in [
        ("aaaa", "aa", "b"),
        ("banana", "ana", "X"),
        ("abc", "", "-"),
        ("", "", "-"),
        ("héllo wörld", "ö", "o"),
        ("short", "longer pattern", "x"),
    ] {
        assert_eq!(fctools::text::replace(text, from, to), text.replace(from, to));
    }
}

#[test]
fn replace_registrations_of_one_original_keep_the_last() {
    assert_modifier(ReplaceCommandModifier::new().replace("a", "b").replace("a", "c"), "aa", "cc");
}

#[test]
fn command_modifier_chain_applies_in_order() {
    let modifiers: Vec<Box<dyn CommandModifier>> = vec![
        Box::new(AppendCommandModifier::new(" --fast")),
        Box::new(NetnsCommandModifier::new("ns1")),
        Box::new(ReplaceCommandModifier::new().replace("fast", "slow")),
    ];
    let mut command = "run".to_string();
    apply_command_modifier_chain(&mut command, &modifiers);
    assert_eq!(command, "/usr/sbin/ip netns exec ns1 run --slow");
}

#[test]
fn replace_modifiers_compare_as_maps() {
    let one = ReplaceCommandModifier::new().replace("a", "b").replace("c", "d");
    let other = ReplaceCommandModifier::new().replace("c", "d").replace("a", "b");
    assert_eq!(one, other);
    assert_eq!(one.clone(), one);
    assert_ne!(one, ReplaceCommandModifier::new().replace("a", "b"));
    assert_ne!(one, ReplaceCommandModifier::new().replace("a", "x").replace("c", "d"));
    assert_eq!(ReplaceCommandModifier::new().replace("a", "b").replace("a", "c"), ReplaceCommandModifier::new().replace("a", "c"));
}
