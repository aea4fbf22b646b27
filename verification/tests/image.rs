use compose_checks::image::{parse_image, ImageError, ImageRef};

#[test]
fn bare_name_resolves_to_docker_io_latest() {
    let r = parse_image("nginx").unwrap();
    assert_eq!(
        r,
        ImageRef {
            instance: "docker.io".to_string(),
            name: "nginx".to_string(),
            tag: "latest".to_string(),
            digest: None,
        }
    );
    assert_eq!(r.to_text(), "docker.io/nginx:latest");
}

#[test]
fn name_with_tag() {
    let r = parse_image("redis:6.2").unwrap();
    assert_eq!(r.instance, "docker.io");
    assert_eq!(r.name, "redis");
    assert_eq!(r.tag, "6.2");
    assert_eq!(r.digest, None);
}

#[test]
fn registry_with_namespace_and_tag() {
    let r = parse_image("ghcr.io/org/app:latest").unwrap();
    assert_eq!(r.instance, "ghcr.io");
    assert_eq!(r.name, "org/app");
    assert_eq!(r.tag, "latest");
    assert_eq!(r.to_text(), "ghcr.io/org/app:latest");
}

#[test]
fn registry_with_port_and_digest() {
    let r = parse_image("myreg.example.com:5000/app@sha256:abc").unwrap();
    assert_eq!(r.instance, "myreg.example.com:5000");
    assert_eq!(r.name, "app");
    assert_eq!(r.tag, "latest");
    assert_eq!(r.digest, Some("sha256:abc".to_string()));
    assert_eq!(r.to_text(), "myreg.example.com:5000/app:latest@sha256:abc");
}

#[test]
fn localhost_is_a_registry() {
    let r = parse_image("localhost/foo:1").unwrap();
    assert_eq!(r.instance, "localhost");
    assert_eq!(r.name, "foo");
    assert_eq!(r.tag, "1");
}

#[test]
fn plain_namespace_stays_on_default_registry() {
    let r = parse_image("library/nginx").unwrap();
    assert_eq!(r.instance, "docker.io");
    assert_eq!(r.name, "library/nginx");
    assert_eq!(r.tag, "latest");
}

#[test]
fn empty_image_is_invalid() {
    assert_eq!(parse_image(""), Err(ImageError::InvalidImage));
}

#[test]
fn whitespace_image_is_invalid() {
    assert_eq!(parse_image("foo bar"), Err(ImageError::InvalidImage));
    assert_eq!(parse_image("nginx\t"), Err(ImageError::InvalidImage));
}
