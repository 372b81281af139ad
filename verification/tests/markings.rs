use road_intersection::config::Config;
use road_intersection::model::Model;

#[test]
fn road_markings_of_the_standard_geometry() {
    let lines = Model::create_road_markings(&Config::standard());
    let got: Vec<(i32, i32, i32, i32)> =
        lines.iter().map(|l| (l.start.x, l.start.y, l.end.x, l.end.y)).collect();
    let expected = vec![
        (450, 300, 450, 350),
        (350, 250, 350, 300),
        (450, 250, 400, 250),
        (350, 350, 400, 350),
        (350, 300, 300, 300),
        (275, 300, 225, 300),
        (200, 300, 150, 300),
        (125, 300, 75, 300),
        (50, 300, 0, 300),
        (450, 300, 500, 300),
        (525, 300, 575, 300),
        (600, 300, 650, 300),
        (675, 300, 725, 300),
        (750, 300, 800, 300),
        (400, 250, 400, 200),
        (400, 175, 400, 125),
        (400, 100, 400, 50),
        (400, 25, 400, -25),
        (400, -50, 400, -100),
        (400, 350, 400, 400),
        (400, 425, 400, 475),
        (400, 500, 400, 550),
        (400, 575, 400, 625),
        (400, 650, 400, 700),
    ];
    assert_eq!(got, expected);
    for line in &lines {
        assert_eq!(line.color, (255, 255, 255));
    }
}

#[test]
fn new_world_holds_the_markings_and_nothing_else() {
    let model = Model::new(Config::standard());
    assert!(model.cars().is_empty());
    assert_eq!(model.road_marking().len(), 24);
    assert_eq!(model.road_marking()[0].start.x, 450);
    assert_eq!(model.traffic_light_switch().pending_request(), None);
    assert_eq!(model.traffic_light_switch().traffic_lights().green(), None);
    assert_eq!(model.config().car_size(), 40);
}

#[test]
fn odd_screen_sizes_round_the_middle_down() {
    let cfg = Config::new(801, 601, 40, 10, 2, 20, 5).unwrap();
    let lines = Model::create_road_markings(&cfg);
    assert_eq!((lines[0].start.x, lines[0].start.y), (450, 300));
    assert_eq!((lines[0].end.x, lines[0].end.y), (450, 350));
}
