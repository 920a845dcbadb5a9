use render_graph::render_node::{resolve_target, wire_source, Target};

/// A graph holding only the default node writes the presentation target,
/// never a ping/pong texture.
#[test]
fn single_node_graph_targets_screen() {
    assert_eq!(resolve_target(0, 1), Target::Screen);
}

/// For every graph size, the last node writes the presentation target and
/// every earlier node writes the offscreen target of its own parity.
#[test]
fn target_resolution_parity() {
    for n in 1..=6usize {
        assert_eq!(resolve_target(n - 1, n), Target::Screen);
        for i in 0..n - 1 {
            let expected = if i % 2 == 0 { Target::Ping } else { Target::Pong };
            assert_eq!(resolve_target(i, n), expected);
        }
    }
}

/// The slot a newly appended node is wired to read is computed from the
/// graph's length before the append: `(len - 1) % 2`.
#[test]
fn wire_source_uses_length_before_append() {
    assert_eq!(wire_source(1), 0);
    assert_eq!(wire_source(2), 1);
    assert_eq!(wire_source(3), 0);
    assert_eq!(wire_source(4), 1);
    assert_eq!(wire_source(5), 0);
}

/// One appended node wired to the previous output: the new node reads ping
/// (slot 0), node 0 now writes ping, and the new last node writes the screen.
#[test]
fn two_node_chain() {
    let wired = wire_source(1);
    assert_eq!(wired, 0);
    assert_eq!(resolve_target(0, 2), Target::Ping);
    assert_eq!(resolve_target(1, 2), Target::Screen);
}

/// Growing the graph to five nodes, each wired to the previous output: the
/// target sequence is ping, pong, ping, pong, screen, and each node's wired
/// slot is the slot its immediate predecessor writes.
#[test]
fn five_node_chain() {
    let mut wired: Vec<usize> = Vec::new();
    let mut len: usize = 1;
    while len < 5 {
        wired.push(wire_source(len));
        len += 1;
    }
    assert_eq!(wired, vec![0, 1, 0, 1]);

    let mut targets: Vec<Target> = Vec::new();
    for i in 0..len {
        targets.push(resolve_target(i, len));
    }
    assert_eq!(
        targets,
        vec![Target::Ping, Target::Pong, Target::Ping, Target::Pong, Target::Screen]
    );

    for i in 1..len {
        let slot_written_by_previous = match targets[i - 1] {
            Target::Ping => 0usize,
            Target::Pong => 1usize,
            Target::Screen => unreachable!(),
        };
        assert_eq!(wired[i - 1], slot_written_by_previous);
    }
}

/// Appending a node leaves every settled node's target unchanged; only the
/// formerly last node moves from the screen to the offscreen target of its
/// parity.
#[test]
fn append_keeps_prior_targets() {
    for n in 2..=5usize {
        for i in 0..n - 2 {
            assert_eq!(resolve_target(i, n - 1), resolve_target(i, n));
        }
        assert_eq!(resolve_target(n - 2, n - 1), Target::Screen);
        let expected = if (n - 2) % 2 == 0 { Target::Ping } else { Target::Pong };
        assert_eq!(resolve_target(n - 2, n), expected);
    }
}
