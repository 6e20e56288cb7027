use aura_core::audio::framing::FrameAssembler;

#[test]
fn frames_come_out_whole_and_in_order() {
    let mut fa: FrameAssembler<u32> = FrameAssembler::new(480);
    let input: Vec<u32> = (0..1000).collect();
    let frames = fa.push(&input);
    assert_eq!(frames.len(), 2);
    assert_eq!(frames[0], (0..480).collect::<Vec<u32>>());
    assert_eq!(frames[1], (480..960).collect::<Vec<u32>>());
    assert_eq!(fa.pending_len(), 40);
    let more: Vec<u32> = (1000..1440).collect();
    let frames = fa.push(&more);
    assert_eq!(frames.len(), 1);
    assert_eq!(frames[0], (960..1440).collect::<Vec<u32>>());
    assert_eq!(fa.pending_len(), 0);
}

#[test]
fn short_pieces_accumulate() {
    let mut fa: FrameAssembler<f32> = FrameAssembler::new(512);
    for _ in 0..4 {
        assert!(fa.push(&[0.5f32; 100]).is_empty());
    }
    assert_eq!(fa.pending_len(), 400);
    let frames = fa.push(&[0.5f32; 200]);
    assert_eq!(frames.len(), 1);
    assert_eq!(frames[0].len(), 512);
    assert_eq!(fa.pending_len(), 88);
}

#[test]
fn conservation_over_many_pushes() {
    let mut fa: FrameAssembler<u32> = FrameAssembler::new(7);
    let mut out: Vec<u32> = Vec::new();
    let mut fed = 0u32;
    for len in [0usize, 3, 11, 1, 20, 6, 13] {
        let piece: Vec<u32> = (fed..fed + len as u32).collect();
        fed += len as u32;
        for f in fa.push(&piece) {
            assert_eq!(f.len(), 7);
            out.extend(f);
        }
    }
    assert_eq!(out.len() + fa.pending_len(), fed as usize);
    assert_eq!(out, (0..out.len() as u32).collect::<Vec<u32>>());
}

#[test]
fn clear_drops_pending() {
    let mut fa: FrameAssembler<u32> = FrameAssembler::new(4);
    fa.push(&[1, 2, 3]);
    fa.clear();
    assert_eq!(fa.pending_len(), 0);
    let frames = fa.push(&[4, 5, 6, 7]);
    assert_eq!(frames, vec![vec![4, 5, 6, 7]]);
}

#[test]
fn pieces_frame_like_the_whole() {
    let all: Vec<u32> = (0..100).collect();
    let mut whole: FrameAssembler<u32> = FrameAssembler::new(9);
    let expected = whole.push(&all);
    let mut split: FrameAssembler<u32> = FrameAssembler::new(9);
    let mut got = split.push(&all[..40]);
    got.extend(split.push(&all[40..]));
    assert_eq!(got, expected);
    assert_eq!(got.len(), 11);
    assert_eq!(split.pending_len(), whole.pending_len());
    assert_eq!(split.pending_len(), 1);
}
