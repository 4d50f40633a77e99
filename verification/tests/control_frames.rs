use wasmer_dylib::control::Branch;
use wasmer_dylib::control::ControlError;
use wasmer_dylib::control::ControlFrame;
use wasmer_dylib::control::ControlStack;
use wasmer_dylib::control::FrameKind;
use wasmer_dylib::control::Label;

#[test]
fn no_frame_is_open_at_first() {
    let mut control = ControlStack::new();
    assert_eq!(control.depth(), 0);
    assert_eq!(control.branch(0, 0), Err(ControlError::BranchDepth));
    assert_eq!(control.exit_frame(0), Err(ControlError::NoOpenFrame));
}

#[test]
fn frames_record_depth_and_take_labels() {
    let mut control = ControlStack::new();
    let function = control.enter_frame(FrameKind::Function, 1, 0).unwrap();
    assert_eq!(
        function,
        ControlFrame {
            kind: FrameKind::Function,
            entry_depth: 0,
            arity: 1,
            end: Label(0),
            start: None
        }
    );
    let looped = control.enter_frame(FrameKind::Loop, 0, 2).unwrap();
    assert_eq!(
        looped,
        ControlFrame {
            kind: FrameKind::Loop,
            entry_depth: 2,
            arity: 0,
            end: Label(1),
            start: Some(Label(2))
        }
    );
    let block = control.enter_frame(FrameKind::Block, 1, 2).unwrap();
    assert_eq!(block.end, Label(3));
    assert_eq!(block.start, None);
    let conditional = control.enter_frame(FrameKind::IfElse, 2, 5).unwrap();
    assert_eq!(conditional.end, Label(4));
    assert_eq!(control.depth(), 4);
}

#[test]
fn branches_go_to_the_end_or_to_the_start_of_a_loop() {
    let mut control = ControlStack::new();
    control.enter_frame(FrameKind::Function, 1, 0).unwrap();
    control.enter_frame(FrameKind::Loop, 3, 2).unwrap();
    control.enter_frame(FrameKind::Block, 1, 2).unwrap();
    assert_eq!(
        control.branch(0, 5),
        Ok(Branch { target: Label(3), carried: 1, discarded: 2 })
    );
    assert_eq!(
        control.branch(0, 3),
        Ok(Branch { target: Label(3), carried: 1, discarded: 0 })
    );
    assert_eq!(control.branch(0, 2), Err(ControlError::StackDepthMismatch));
    assert_eq!(
        control.branch(1, 5),
        Ok(Branch { target: Label(2), carried: 0, discarded: 3 })
    );
    assert_eq!(
        control.branch(1, 2),
        Ok(Branch { target: Label(2), carried: 0, discarded: 0 })
    );
    assert_eq!(control.branch(1, 1), Err(ControlError::StackDepthMismatch));
    assert_eq!(
        control.branch(2, 5),
        Ok(Branch { target: Label(0), carried: 1, discarded: 4 })
    );
    assert_eq!(control.branch(3, 5), Err(ControlError::BranchDepth));
    assert_eq!(control.branch(usize::MAX, 5), Err(ControlError::BranchDepth));
    assert_eq!(control.depth(), 3);
}

#[test]
fn every_way_out_arrives_with_one_depth() {
    let mut control = ControlStack::new();
    control.enter_frame(FrameKind::Block, 2, 4).unwrap();
    for depth in 6..12usize {
        let branch = control.branch(0, depth).unwrap();
        assert_eq!(depth - branch.discarded, 6);
        assert_eq!(branch.carried, 2);
    }
    assert_eq!(control.exit_frame(5), Err(ControlError::StackDepthMismatch));
    assert_eq!(control.exit_frame(7), Err(ControlError::StackDepthMismatch));
    assert_eq!(control.depth(), 1);
    let left = control.exit_frame(6).unwrap();
    assert_eq!(left.entry_depth, 4);
    assert_eq!(left.arity, 2);
    assert_eq!(control.depth(), 0);
}

#[test]
fn frames_close_from_the_innermost() {
    let mut control = ControlStack::new();
    control.enter_frame(FrameKind::Function, 0, 0).unwrap();
    control.enter_frame(FrameKind::Block, 1, 1).unwrap();
    control.enter_frame(FrameKind::Loop, 0, 1).unwrap();
    assert_eq!(control.exit_frame(1).unwrap().kind, FrameKind::Loop);
    assert_eq!(control.exit_frame(2).unwrap().kind, FrameKind::Block);
    assert_eq!(control.exit_frame(0).unwrap().kind, FrameKind::Function);
    assert_eq!(control.exit_frame(0), Err(ControlError::NoOpenFrame));
    let again = control.enter_frame(FrameKind::Block, 0, 0).unwrap();
    assert_eq!(again.end, Label(4));
}

#[test]
fn entry_below_the_enclosing_depth_is_refused() {
    let mut control = ControlStack::new();
    control.enter_frame(FrameKind::Block, 0, 3).unwrap();
    assert_eq!(
        control.enter_frame(FrameKind::Block, 0, 2),
        Err(ControlError::StackDepthMismatch)
    );
    assert_eq!(
        control.enter_frame(FrameKind::Block, 1, usize::MAX),
        Err(ControlError::StackDepthMismatch)
    );
    assert_eq!(control.depth(), 1);
    assert_eq!(control.enter_frame(FrameKind::Block, 0, 3).unwrap().end, Label(1));
}
