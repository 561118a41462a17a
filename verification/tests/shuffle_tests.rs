use amberol::audio::shuffle::identity_positions;
use amberol::audio::shuffle::ShuffleListModel;

fn order_of(model: &ShuffleListModel) -> Vec<u32> {
    (0..model.n_items()).map(|i| model.item(i).unwrap()).collect()
}

#[test]
fn identity_positions_count_up_from_zero() {
    assert_eq!(identity_positions(0), Vec::<u32>::new());
    assert_eq!(identity_positions(4), vec![0, 1, 2, 3]);
}

#[test]
fn new_projection_is_the_identity() {
    let model = ShuffleListModel::new(5);
    assert!(!model.shuffled());
    assert_eq!(model.n_items(), 5);
    assert_eq!(order_of(&model), vec![0, 1, 2, 3, 4]);
    assert_eq!(model.item(5), None);
    assert_eq!(model.position_of(3), Some(3));
    assert_eq!(model.position_of(5), None);
}

#[test]
fn default_projection_is_empty() {
    let model = ShuffleListModel::default();
    assert_eq!(model.n_items(), 0);
    assert!(!model.shuffled());
    assert_eq!(model.item(0), None);
}

#[test]
fn reshuffle_gives_a_bijection() {
    for _ in 0..50 {
        let mut model = ShuffleListModel::new(20);
        model.reshuffle();
        assert!(model.shuffled());
        assert_eq!(model.n_items(), 20);
        let mut order = order_of(&model);
        assert_eq!(model.item(20), None);
        for (pos, backing) in order.iter().enumerate() {
            assert_eq!(model.position_of(*backing), Some(pos as u32));
        }
        order.sort();
        assert_eq!(order, (0..20).collect::<Vec<u32>>());
    }
}

#[test]
fn reshuffle_rearranges() {
    // Twelve shuffles of a hundred positions all coming out as the identity
    // would mean that nothing is shuffled at all.
    let mut moved = false;
    for _ in 0..12 {
        let mut model = ShuffleListModel::new(100);
        model.reshuffle();
        if order_of(&model) != (0..100).collect::<Vec<u32>>() {
            moved = true;
        }
    }
    assert!(moved);
}

#[test]
fn unshuffle_restores_the_identity() {
    let mut model = ShuffleListModel::new(30);
    model.reshuffle();
    model.unshuffle();
    assert!(!model.shuffled());
    assert_eq!(order_of(&model), (0..30).collect::<Vec<u32>>());
}

#[test]
fn set_model_resizes_and_keeps_the_shuffle_setting() {
    let mut model = ShuffleListModel::new(3);
    model.set_model(6);
    assert!(!model.shuffled());
    assert_eq!(order_of(&model), vec![0, 1, 2, 3, 4, 5]);
    model.reshuffle();
    model.set_model(9);
    assert!(model.shuffled());
    let mut order = order_of(&model);
    order.sort();
    assert_eq!(order, (0..9).collect::<Vec<u32>>());
    model.set_model(0);
    assert!(model.shuffled());
    assert_eq!(model.item(0), None);
}

#[test]
fn shuffle_of_nothing_and_of_one() {
    let mut model = ShuffleListModel::new(0);
    model.reshuffle();
    assert!(model.shuffled());
    assert_eq!(model.item(0), None);
    let mut model = ShuffleListModel::new(1);
    model.reshuffle();
    assert_eq!(model.item(0), Some(0));
    assert_eq!(model.position_of(0), Some(0));
}
