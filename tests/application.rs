use std::cell::RefCell;
use std::rc::Rc;

use buffengine::application::{AppState, Application};
use buffengine::events::{ApplicationEvent, Event, KeyboardEvent};
use buffengine::input::KeyCode;
use buffengine::layers::{Layer, LayerSlot};
use buffengine::renderer::camera::Camera2D;
use buffengine::renderer::frame::RenderCommand;
use buffengine::renderer::material::{Material, ShaderDefinition, Texture};
use buffengine::renderer::mesh::{Mesh, Vertex};
use buffengine::renderer::transform::Transform2D;
use buffengine::renderer::{Renderable, SceneSnapshot};
use buffengine::window::WindowProps;

type Log = Rc<RefCell<Vec<String>>>;

#[derive(Clone)]
struct TestLayer {
    name: String,
    answer: bool,
    log: Log,
    draws: Option<Vec<Renderable>>,
}

impl TestLayer {
    fn new(name: &str, answer: bool, log: &Log) -> Self {
        Self { name: name.to_string(), answer, log: Rc::clone(log), draws: None }
    }
}

impl Layer for TestLayer {
    fn consumes(&self, _event: Event) -> bool {
        self.answer
    }

    fn after_update(&self) -> Self {
        self.clone()
    }

    fn scene(&self) -> Option<SceneSnapshot> {
        self.draws.as_ref().map(|renderables| SceneSnapshot {
            camera: Camera2D { position: [0; 2], size: [25.0f32.to_bits(); 2], viewport_size: [1024, 768] },
            renderables: renderables.clone(),
        })
    }

    fn update(&mut self) {
        self.log.borrow_mut().push(format!("update {}", self.name));
    }

    fn handle_event(&mut self, _event: &Event) -> bool {
        self.log.borrow_mut().push(format!("event {}", self.name));
        self.answer
    }

    fn get_name(&self) -> &str {
        self.name.as_str()
    }

    fn as_scene(&self) -> Option<SceneSnapshot> {
        self.scene()
    }
}

fn sprite(name: &str, texture_name: &str) -> Renderable {
    let vertex = Vertex { position: [0; 3], color: [1.0f32.to_bits(); 4], tex_coords: [0; 2] };
    Renderable {
        name: name.to_string(),
        mesh: Mesh { name: String::from("quad"), vertices: vec![vertex; 6] },
        material: Material {
            shader: Rc::new(ShaderDefinition { name: String::from("Sprite Shader"), source: String::new() }),
            texture: Some(Texture { name: texture_name.to_string(), width: 1, height: 1, data: vec![0; 4] }),
        },
        transform: Transform2D { position: [0; 2], scale: [1.0f32.to_bits(); 2] },
    }
}

fn running_app(log: &Log, layer_answer: bool) -> Application<TestLayer> {
    let mut app = Application::new(WindowProps::default());
    app.push_layer(TestLayer::new("layer", layer_answer, log));
    app.start();
    app
}

#[test]
fn application_starts_created_then_runs() {
    let mut app: Application<TestLayer> = Application::new(WindowProps::default());
    assert_eq!(app.state(), AppState::Created);
    app.start();
    assert_eq!(app.state(), AppState::Running);
    assert_eq!(app.window_props().title, "BuffEngine");
}

#[test]
fn window_closed_ends_loop_even_when_a_layer_consumes_it() {
    let log: Log = Rc::new(RefCell::new(Vec::new()));
    let mut app = running_app(&log, true);

    let step = app.process_event(&Event::ApplicationEvent(ApplicationEvent::WindowClosed));

    assert!(step.exit);
    assert_eq!(step.handled_by, Some(LayerSlot::Layer(0)));
    assert_eq!(app.state(), AppState::Closing);
}

#[test]
fn closing_application_ignores_further_events() {
    let log: Log = Rc::new(RefCell::new(Vec::new()));
    let mut app = running_app(&log, true);
    app.process_event(&Event::ApplicationEvent(ApplicationEvent::WindowClosed));
    log.borrow_mut().clear();

    let step = app.process_event(&Event::ApplicationEvent(ApplicationEvent::RenderRequested));

    assert!(step.exit);
    assert!(step.frames.is_empty());
    assert_eq!(step.handled_by, None);
    assert!(log.borrow().is_empty());
    assert_eq!(app.state(), AppState::Closing);
}

#[test]
fn other_events_keep_the_loop_running() {
    let log: Log = Rc::new(RefCell::new(Vec::new()));
    let mut app = running_app(&log, false);

    let step = app.process_event(&Event::KeyboardEvent(KeyboardEvent::KeyReleased { key_code: KeyCode::Left }));

    assert!(!step.exit);
    assert_eq!(step.handled_by, None);
    assert_eq!(step.resize_surface, None);
    assert_eq!(app.state(), AppState::Running);
}

#[test]
fn resize_asks_for_surface_reconfiguration() {
    let log: Log = Rc::new(RefCell::new(Vec::new()));
    let mut app = running_app(&log, false);

    let step = app.process_event(&Event::ApplicationEvent(ApplicationEvent::WindowResized { width: 640, height: 480 }));

    assert_eq!(step.resize_surface, Some([640, 480]));
    assert!(step.frames.is_empty());
    assert!(!step.exit);
}

#[test]
fn render_request_updates_then_draws_scenes_then_dispatches() {
    let log: Log = Rc::new(RefCell::new(Vec::new()));
    let mut app = Application::new(WindowProps::default());
    let mut scene = TestLayer::new("scene", false, &log);
    scene.draws = Some(vec![sprite("npc", "Warrior"), sprite("player", "Warrior")]);
    app.push_layer(scene);
    app.push_overlay(TestLayer::new("overlay", false, &log));
    app.start();

    let step = app.process_event(&Event::ApplicationEvent(ApplicationEvent::RenderRequested));

    assert_eq!(*log.borrow(), vec!["update scene", "update overlay", "event overlay", "event scene"]);
    assert_eq!(step.frames.len(), 1);
    let commands = step.frames[0].commands.as_ref().unwrap();
    assert_eq!(commands.first(), Some(&RenderCommand::AcquireFrame));
    assert_eq!(commands.last(), Some(&RenderCommand::Present));
    let uploads = commands.iter().filter(|c| matches!(c, RenderCommand::UploadTexture { .. })).count();
    assert_eq!(uploads, 1);
    assert_eq!(step.frames[0].scene.renderables.len(), 2);

    let again = app.process_event(&Event::ApplicationEvent(ApplicationEvent::RenderRequested));
    let commands = again.frames[0].commands.as_ref().unwrap();
    assert!(!commands.iter().any(|c| matches!(c, RenderCommand::UploadTexture { .. })));
}

#[test]
fn frames_follow_scene_layers_then_overlays_in_push_order() {
    let log: Log = Rc::new(RefCell::new(Vec::new()));
    let mut app = Application::new(WindowProps::default());
    let mut first = TestLayer::new("first", false, &log);
    first.draws = Some(vec![sprite("a", "A")]);
    let mut second = TestLayer::new("second", false, &log);
    second.draws = Some(vec![sprite("b", "B"), sprite("c", "C")]);
    let mut top = TestLayer::new("top", false, &log);
    top.draws = Some(vec![sprite("d", "A")]);
    app.push_overlay(top);
    app.push_layer(first);
    app.push_layer(TestLayer::new("plain", false, &log));
    app.push_layer(second);
    app.start();

    let step = app.process_event(&Event::ApplicationEvent(ApplicationEvent::RenderRequested));

    let names: Vec<Vec<String>> = step
        .frames
        .iter()
        .map(|f| f.scene.renderables.iter().map(|r| r.name.clone()).collect())
        .collect();
    assert_eq!(names, vec![vec!["a"], vec!["b", "c"], vec!["d"]]);
    let uploads: Vec<usize> = step
        .frames
        .iter()
        .map(|f| f.commands.as_ref().unwrap().iter().filter(|c| matches!(c, RenderCommand::UploadTexture { .. })).count())
        .collect();
    assert_eq!(uploads, vec![1, 2, 0]);
}
