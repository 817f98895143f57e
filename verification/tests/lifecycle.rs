use auto_fov::{Completion, Example, Loading, StartRequest, Trans};

#[test]
fn a_fresh_loading_state_holds_no_scene() {
    let loading: Loading<u64> = Loading::new();
    assert!(loading.scene.is_none());
}

#[test]
fn loading_requests_the_overlays_and_the_scene() {
    let loading: Loading<u64> = Loading::new();
    let requests = loading.on_start();
    assert_eq!(requests.len(), 3);
    assert!(matches!(&requests[0], StartRequest::CreateUi(p) if p == "ui/loading.ron"));
    assert!(matches!(&requests[1], StartRequest::CreateUi(p) if p == "ui/fov.ron"));
    assert!(matches!(&requests[2], StartRequest::LoadScene(p) if p == "../my_scene.ron"));
}

#[test]
fn loading_waits_while_requests_are_outstanding() {
    let mut loading: Loading<u64> = Loading::new();
    let trans = loading.update(Completion::Loading);
    assert!(matches!(trans, Trans::Stay));
    assert!(loading.scene.is_none());
}

#[test]
fn a_failed_load_quits() {
    let mut loading: Loading<u64> = Loading::new();
    loading.scene_loaded(7);
    let trans = loading.update(Completion::Failed);
    assert!(matches!(trans, Trans::Quit));
    assert_eq!(loading.scene, Some(7));
}

#[test]
fn a_complete_load_hands_the_scene_to_the_running_state() {
    let mut loading: Loading<u64> = Loading::new();
    loading.scene_loaded(7);
    let trans = loading.update(Completion::Complete);
    match trans {
        Trans::Switch(example) => assert_eq!(example.scene, 7),
        _ => panic!("expected a switch to the running state"),
    }
    assert!(loading.scene.is_none());
}

#[test]
fn the_running_state_places_the_scene_and_drops_the_loading_overlay() {
    let example: Example<u64> = Example { scene: 7 };
    let requests = example.on_start();
    assert_eq!(requests.len(), 2);
    assert!(matches!(&requests[0], StartRequest::CreateSceneEntity));
    assert!(matches!(&requests[1], StartRequest::DeleteUi(n) if n == "loading"));
}
