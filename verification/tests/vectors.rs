use spicy::error::EngineError;
use spicy::plots::{ItemsChanged, Plot, Plots};
use spicy::vectors::{extent, has_time, PlotData, PlotView, Vector, VectorData, PALETTE_SIZE};

#[test]
fn real_samples_are_handed_over_unchanged() {
    let data = VectorData::Real(vec![0.0f64, 1.5, -2.25]);
    assert!(data.is_real());
    assert_eq!(data.len(), 3);
    assert_eq!(data.into_real(), Ok(vec![0.0f64, 1.5, -2.25]));
}

#[test]
fn complex_samples_are_a_shape_mismatch() {
    let data = VectorData::Complex(vec![(1.0f64, 2.0f64), (3.0, 4.0)]);
    assert!(!data.is_real());
    assert_eq!(data.len(), 2);
    assert_eq!(data.into_real(), Err(EngineError::DataShapeMismatch));
}

#[test]
fn empty_complex_vector_is_still_a_shape_mismatch() {
    let data: VectorData<f64> = VectorData::Complex(Vec::new());
    assert_eq!(data.into_real(), Err(EngineError::DataShapeMismatch));
    let data: VectorData<f64> = VectorData::Real(Vec::new());
    assert_eq!(data.into_real(), Ok(Vec::new()));
}

#[test]
fn time_axis_is_found_by_its_exact_name() {
    assert!(has_time(&vec!["v(1)".to_string(), "time".to_string()]));
    assert!(has_time(&vec!["time".to_string()]));
    assert!(!has_time(&vec!["Time".to_string(), "time ".to_string(), "timer".to_string()]));
    assert!(!has_time(&Vec::new()));
}

#[test]
fn plot_data_sorts_vectors_into_time_and_others() {
    let mut data: PlotData<f64> = PlotData::new();
    assert_eq!(data.add("v(1)".to_string(), VectorData::Real(vec![5.0, 5.0])), Ok(()));
    assert_eq!(data.add("time".to_string(), VectorData::Real(vec![0.0, 1e-3])), Ok(()));
    assert_eq!(data.add("i(v1)".to_string(), VectorData::Real(vec![-5e-3, -5e-3])), Ok(()));
    assert_eq!(data.time_vector, vec![0.0, 1e-3]);
    assert_eq!(
        data.other_vectors,
        vec![
            ("v(1)".to_string(), vec![5.0, 5.0]),
            ("i(v1)".to_string(), vec![-5e-3, -5e-3]),
        ]
    );
}

#[test]
fn plot_data_refuses_complex_samples_and_stays_as_it_was() {
    let mut data: PlotData<f64> = PlotData::new();
    data.add("time".to_string(), VectorData::Real(vec![0.0])).unwrap();
    data.add("v(1)".to_string(), VectorData::Real(vec![1.0])).unwrap();
    let before = data.clone();
    assert_eq!(
        data.add("v(2)".to_string(), VectorData::Complex(vec![(1.0, 0.5)])),
        Err(EngineError::DataShapeMismatch)
    );
    assert_eq!(data, before);
    assert_eq!(
        data.add("time".to_string(), VectorData::Complex(vec![(1.0, 0.5)])),
        Err(EngineError::DataShapeMismatch)
    );
    assert_eq!(data, before);
}

#[test]
fn plot_data_joins_repeated_time_vectors() {
    let mut data: PlotData<u8> = PlotData::new();
    data.add("time".to_string(), VectorData::Real(vec![1, 2])).unwrap();
    data.add("time".to_string(), VectorData::Real(vec![3])).unwrap();
    assert_eq!(data.time_vector, vec![1, 2, 3]);
    assert!(data.other_vectors.is_empty());
}

fn named(count: usize) -> Vec<(String, Vec<f64>)> {
    let mut vectors = Vec::new();
    for i in 0..count {
        vectors.push((format!("v({})", i), vec![i as f64, 2.0 * i as f64]));
    }
    vectors
}

#[test]
fn plot_view_gives_each_vector_its_colour() {
    let mut view: PlotView<f64> = PlotView::new();
    assert_eq!(view.n_vectors(), 0);
    view.set_vectors(vec![0.0, 1.0], named(3));
    assert_eq!(view.time_vector(), &vec![0.0, 1.0]);
    assert_eq!(view.n_vectors(), 3);
    for i in 0..3 {
        assert_eq!(
            view.vector(i),
            Some(&Vector {
                name: format!("v({})", i),
                data: vec![i as f64, 2.0 * i as f64],
                color: i,
                is_visible: true,
            })
        );
    }
    assert_eq!(view.vector(3), None);
}

#[test]
fn plot_view_shows_no_more_vectors_than_it_has_colours() {
    assert_eq!(PALETTE_SIZE, 7);
    let mut view: PlotView<f64> = PlotView::new();
    view.set_vectors(vec![0.0], named(7));
    assert_eq!(view.n_vectors(), 7);
    view.set_vectors(vec![0.0], named(10));
    assert_eq!(view.n_vectors(), 7);
    assert_eq!(view.vector(6).map(|v| v.name.clone()), Some("v(6)".to_string()));
    assert_eq!(view.vector(6).map(|v| v.color), Some(6));
    assert_eq!(view.vector(7), None);
}

#[test]
fn plot_view_replaces_and_clears() {
    let mut view: PlotView<f64> = PlotView::new();
    view.set_vectors(vec![0.0, 1.0], named(4));
    view.set_vectors(vec![2.0], named(1));
    assert_eq!(view.time_vector(), &vec![2.0]);
    assert_eq!(view.n_vectors(), 1);
    view.clear();
    assert_eq!(view.time_vector(), &Vec::<f64>::new());
    assert_eq!(view.n_vectors(), 0);
    assert_eq!(view.vector(0), None);
}

#[test]
fn plot_view_hides_the_first_vector_of_a_name() {
    let mut view: PlotView<f64> = PlotView::new();
    let vectors = vec![
        ("a".to_string(), vec![1.0]),
        ("b".to_string(), vec![2.0]),
        ("b".to_string(), vec![3.0]),
    ];
    view.set_vectors(vec![0.0], vectors);
    assert!(view.set_visible("b", false));
    assert_eq!(view.vector(0).map(|v| v.is_visible), Some(true));
    assert_eq!(view.vector(1).map(|v| v.is_visible), Some(false));
    assert_eq!(view.vector(2).map(|v| v.is_visible), Some(true));
    assert_eq!(view.vector(1).map(|v| v.data.clone()), Some(vec![2.0]));
    assert_eq!(view.vector(1).map(|v| v.color), Some(1));
    assert!(view.set_visible("b", true));
    assert_eq!(view.vector(1).map(|v| v.is_visible), Some(true));
    assert!(!view.set_visible("c", false));
    assert_eq!(view.n_vectors(), 3);
}

#[test]
fn plot_knows_its_name_and_whether_it_is_current() {
    let plot = Plot::new("tran1", true);
    assert_eq!(plot.name(), "tran1");
    assert!(plot.is_current());
    let plot = Plot::new("const", false);
    assert_eq!(plot.name(), "const");
    assert!(!plot.is_current());
}

#[test]
fn plots_mark_the_current_plot() {
    let mut plots = Plots::new();
    assert_eq!(plots.n_items(), 0);
    assert_eq!(plots.item(0), None);
    let names = vec!["tran1".to_string(), "op1".to_string(), "const".to_string()];
    let changed = plots.update("op1", &names);
    assert_eq!(changed, ItemsChanged { position: 0, removed: 0, added: 3 });
    assert_eq!(plots.n_items(), 3);
    assert_eq!(plots.item(0), Some(&Plot::new("tran1", false)));
    assert_eq!(plots.item(1), Some(&Plot::new("op1", true)));
    assert_eq!(plots.item(2), Some(&Plot::new("const", false)));
    assert_eq!(plots.item(3), None);
}

#[test]
fn plots_update_replaces_the_whole_list() {
    let mut plots = Plots::new();
    plots.update("a", &vec!["a".to_string(), "b".to_string(), "c".to_string()]);
    let changed = plots.update("const", &vec!["const".to_string()]);
    assert_eq!(changed, ItemsChanged { position: 0, removed: 3, added: 1 });
    assert_eq!(plots.n_items(), 1);
    assert_eq!(plots.item(0), Some(&Plot::new("const", true)));
    let changed = plots.update("const", &Vec::new());
    assert_eq!(changed, ItemsChanged { position: 0, removed: 1, added: 0 });
    assert_eq!(plots.n_items(), 0);
}

#[test]
fn plots_mark_nothing_when_the_current_name_is_unknown() {
    let mut plots = Plots::new();
    plots.update("gone", &vec!["a".to_string(), "b".to_string()]);
    assert_eq!(plots.item(0).map(|p| p.is_current()), Some(false));
    assert_eq!(plots.item(1).map(|p| p.is_current()), Some(false));
}

#[test]
fn extent_of_no_keys_is_none() {
    assert_eq!(extent(&Vec::new()), None);
}

#[test]
fn extent_finds_least_and_greatest() {
    assert_eq!(extent(&vec![5]), Some((0, 0)));
    assert_eq!(extent(&vec![3, -1, 4, 1, 5, -9, 2, 6]), Some((5, 7)));
    assert_eq!(extent(&vec![i64::MAX, 0, i64::MIN]), Some((2, 0)));
}

#[test]
fn extent_takes_the_first_least_and_the_last_greatest() {
    assert_eq!(extent(&vec![1, 1, 1]), Some((0, 2)));
    assert_eq!(extent(&vec![2, 0, 7, 0, 7, 3]), Some((1, 4)));
}

fn order_key(sample: f64) -> i64 {
    let bits = sample.to_bits() as i64;
    bits ^ ((((bits >> 63) as u64) >> 1) as i64)
}

#[test]
fn extent_over_ordered_keys_agrees_with_the_total_order_of_samples() {
    let samples = vec![0.5f64, -0.0, 0.0, 1e-3, -2.5, f64::INFINITY, 7.25, f64::NEG_INFINITY, 7.25];
    let keys: Vec<i64> = samples.iter().copied().map(order_key).collect();
    let (lo, hi) = extent(&keys).unwrap();
    let least = samples.iter().min_by(|a, b| a.total_cmp(b)).copied().unwrap();
    let greatest = samples.iter().max_by(|a, b| a.total_cmp(b)).copied().unwrap();
    assert_eq!(samples[lo].to_bits(), least.to_bits());
    assert_eq!(samples[hi].to_bits(), greatest.to_bits());
    assert_eq!((lo, hi), (7, 5));
}
