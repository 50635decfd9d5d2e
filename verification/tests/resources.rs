use kube_switchboard::kube_res::{KubeResource, KubeStatus, StatusColor};

fn resource(status: KubeStatus) -> KubeResource {
    KubeResource {
        status,
        name: "pod".to_owned(),
        display: "Pods".to_owned(),
    }
}

#[test]
fn a_new_resource_is_loading() {
    let res = KubeResource::new("service".to_owned(), "Services".to_owned());
    assert_eq!(res.status, KubeStatus::Loading);
    assert_eq!(res.name, "service");
    assert_eq!(res.display, "Services");
    assert!(!res.is_ready());
}

#[test]
fn a_resource_is_ready_once_it_has_a_result() {
    assert!(!resource(KubeStatus::Loading).is_ready());
    assert!(resource(KubeStatus::Good).is_ready());
    assert!(resource(KubeStatus::Bad("down".to_owned())).is_ready());
    assert!(resource(KubeStatus::Suspicious("empty".to_owned())).is_ready());
    assert!(resource(KubeStatus::Bad("".to_owned())).is_ready());
}

#[test]
fn each_status_has_its_colour() {
    assert_eq!(resource(KubeStatus::Loading).color(), StatusColor::DarkGray);
    assert_eq!(resource(KubeStatus::Good).color(), StatusColor::Green);
    assert_eq!(
        resource(KubeStatus::Bad("down".to_owned())).color(),
        StatusColor::Red
    );
    assert_eq!(
        resource(KubeStatus::Suspicious("empty".to_owned())).color(),
        StatusColor::Yellow
    );
}

#[test]
fn each_status_has_its_line() {
    assert_eq!(KubeStatus::Loading.to_string(), "Loading...");
    assert_eq!(KubeStatus::Good.to_string(), "All good here");
    assert_eq!(
        KubeStatus::Bad("One or more not ready".to_owned()).to_string(),
        "Bad: One or more not ready"
    );
    assert_eq!(
        KubeStatus::Suspicious("No pods found".to_owned()).to_string(),
        "May have a problem: No pods found"
    );
    assert_eq!(KubeStatus::Bad("".to_owned()).to_string(), "Bad: ");
}

#[test]
fn a_resource_line_is_label_and_status() {
    assert_eq!(resource(KubeStatus::Loading).to_string(), "Pods: Loading...");
    assert_eq!(resource(KubeStatus::Good).to_string(), "Pods: All good here");
    assert_eq!(
        resource(KubeStatus::Bad("One or more not ready".to_owned())).to_string(),
        "Pods: Bad: One or more not ready"
    );
    let unnamed = KubeResource {
        status: KubeStatus::Suspicious("No pods found".to_owned()),
        name: "pod".to_owned(),
        display: "".to_owned(),
    };
    assert_eq!(unnamed.to_string(), ": May have a problem: No pods found");
}

#[test]
fn statuses_are_equal_when_kind_and_text_are() {
    assert_eq!(KubeStatus::Loading, KubeStatus::Loading);
    assert_eq!(KubeStatus::Good, KubeStatus::Good);
    assert_eq!(KubeStatus::Bad("a".to_owned()), KubeStatus::Bad("a".to_owned()));
    assert_ne!(KubeStatus::Bad("a".to_owned()), KubeStatus::Bad("b".to_owned()));
    assert_ne!(
        KubeStatus::Bad("a".to_owned()),
        KubeStatus::Suspicious("a".to_owned())
    );
    assert_ne!(KubeStatus::Loading, KubeStatus::Good);
    assert_ne!(KubeStatus::Good, KubeStatus::Bad("".to_owned()));
}

#[test]
fn resources_are_equal_when_all_three_parts_are() {
    let a = resource(KubeStatus::Good);
    assert_eq!(a, resource(KubeStatus::Good));
    assert_ne!(a, resource(KubeStatus::Loading));
    assert_ne!(
        a,
        KubeResource {
            status: KubeStatus::Good,
            name: "pods".to_owned(),
            display: "Pods".to_owned()
        }
    );
    assert_ne!(
        a,
        KubeResource {
            status: KubeStatus::Good,
            name: "pod".to_owned(),
            display: "pods".to_owned()
        }
    );
}

#[test]
fn a_clone_is_equal_to_its_source() {
    let a = resource(KubeStatus::Suspicious("No pods found".to_owned()));
    assert_eq!(a.clone(), a);
    let status = KubeStatus::Bad("down".to_owned());
    assert_eq!(status.clone(), status);
}
