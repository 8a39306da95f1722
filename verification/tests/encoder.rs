use ptz_camera::command::CameraCmd;
use ptz_camera::discovery::CameraEndpoint;
use ptz_camera::encoder::{append_dotted_quad, CommandEncoder, ControlRequest, Credentials};
use ptz_camera::text::append_decimal;

fn camera() -> CameraEndpoint {
    CameraEndpoint { ip: [192, 168, 1, 50], port: 1306 }
}

fn admin() -> Credentials {
    Credentials::new("admin", "qwerpoiu")
}

fn decimal(n: u16) -> String {
    let mut s = String::new();
    append_decimal(&mut s, n);
    s
}

#[test]
fn decimal_digits() {
    assert_eq!(decimal(0), "0");
    assert_eq!(decimal(7), "7");
    assert_eq!(decimal(9), "9");
    assert_eq!(decimal(10), "10");
    assert_eq!(decimal(94), "94");
    assert_eq!(decimal(99), "99");
    assert_eq!(decimal(100), "100");
    assert_eq!(decimal(255), "255");
    assert_eq!(decimal(1000), "1000");
    assert_eq!(decimal(1306), "1306");
    assert_eq!(decimal(10000), "10000");
    assert_eq!(decimal(10554), "10554");
    assert_eq!(decimal(65535), "65535");
}

#[test]
fn decimal_agrees_with_std_on_every_u16() {
    for n in 0..=u16::MAX {
        assert_eq!(decimal(n), n.to_string());
    }
}

#[test]
fn append_decimal_keeps_what_was_there() {
    let mut s = String::from("port=");
    append_decimal(&mut s, 8600);
    assert_eq!(s, "port=8600");
    append_decimal(&mut s, 1);
    assert_eq!(s, "port=86001");
}

#[test]
fn dotted_quad() {
    let mut s = String::from("@");
    append_dotted_quad(&mut s, &[192, 168, 1, 50]);
    assert_eq!(s, "@192.168.1.50");
    let mut zero = String::new();
    append_dotted_quad(&mut zero, &[0, 0, 0, 0]);
    assert_eq!(zero, "0.0.0.0");
    let mut full = String::new();
    append_dotted_quad(&mut full, &[255, 255, 255, 255]);
    assert_eq!(full, "255.255.255.255");
}

#[test]
fn encode_fills_every_field() {
    let request = CommandEncoder::encode(&camera(), CameraCmd::PtzUp, &admin());
    assert_eq!(
        request,
        ControlRequest {
            target: String::from("http://192.168.1.50:1306/decoder_control.cgi"),
            loginuse: String::from("admin"),
            loginpas: String::from("qwerpoiu"),
            command: 0,
            onestep: 0,
        }
    );
}

#[test]
fn encode_renders_the_control_url() {
    let request = CommandEncoder::encode(&camera(), CameraCmd::PtzUp, &admin());
    assert_eq!(
        request.url(),
        "http://192.168.1.50:1306/decoder_control.cgi?loginuse=admin&loginpas=qwerpoiu&command=0&onestep=0"
    );
    let stop = CommandEncoder::encode(&camera(), CameraCmd::PtzUpStop, &admin());
    assert_eq!(
        stop.url(),
        "http://192.168.1.50:1306/decoder_control.cgi?loginuse=admin&loginpas=qwerpoiu&command=1&onestep=0"
    );
}

#[test]
fn encode_uses_each_commands_code() {
    let all = [
        (CameraCmd::PtzUp, "0"),
        (CameraCmd::PtzUpStop, "1"),
        (CameraCmd::PtzDown, "2"),
        (CameraCmd::PtzDownStop, "3"),
        (CameraCmd::PtzLeft, "4"),
        (CameraCmd::PtzLeftStop, "5"),
        (CameraCmd::PtzRight, "6"),
        (CameraCmd::PtzRightStop, "7"),
        (CameraCmd::PtzCenter, "25"),
        (CameraCmd::PtzVPatrol, "26"),
        (CameraCmd::PtzVPatrolStop, "27"),
        (CameraCmd::PtzHPatrol, "28"),
        (CameraCmd::PtzHPatrolStop, "29"),
        (CameraCmd::PtzLeftUp, "90"),
        (CameraCmd::PtzRightUp, "91"),
        (CameraCmd::PtzLeftDown, "92"),
        (CameraCmd::PtzRightDown, "93"),
        (CameraCmd::IrOn, "94"),
        (CameraCmd::IrOff, "94"),
    ];
    for (command, code) in all {
        let request = CommandEncoder::encode(&camera(), command, &admin());
        assert_eq!(request.command, command.value());
        assert_eq!(request.onestep, 0);
        assert_eq!(
            request.url(),
            format!(
                "http://192.168.1.50:1306/decoder_control.cgi?loginuse=admin&loginpas=qwerpoiu&command={}&onestep=0",
                code
            )
        );
    }
}

#[test]
fn encode_is_deterministic() {
    let first = CommandEncoder::encode(&camera(), CameraCmd::PtzLeftDown, &admin());
    let second = CommandEncoder::encode(&camera(), CameraCmd::PtzLeftDown, &admin());
    assert_eq!(first, second);
    assert_eq!(first.url().as_bytes(), second.url().as_bytes());
}

#[test]
fn encode_infrared_requests_are_identical() {
    let on = CommandEncoder::encode(&camera(), CameraCmd::IrOn, &admin());
    let off = CommandEncoder::encode(&camera(), CameraCmd::IrOff, &admin());
    assert_eq!(on.command, 94);
    assert_eq!(off.command, 94);
    assert_eq!(on, off);
    assert_eq!(on.url(), off.url());
}

#[test]
fn encode_endpoint_extremes() {
    let lowest = CameraEndpoint { ip: [0, 0, 0, 0], port: 0 };
    let request = CommandEncoder::encode(&lowest, CameraCmd::PtzCenter, &admin());
    assert_eq!(request.target, "http://0.0.0.0:0/decoder_control.cgi");
    let highest = CameraEndpoint { ip: [255, 255, 255, 255], port: 65535 };
    let request = CommandEncoder::encode(&highest, CameraCmd::PtzCenter, &admin());
    assert_eq!(request.target, "http://255.255.255.255:65535/decoder_control.cgi");
    assert_eq!(
        request.url(),
        "http://255.255.255.255:65535/decoder_control.cgi?loginuse=admin&loginpas=qwerpoiu&command=25&onestep=0"
    );
}

#[test]
fn encode_takes_credentials_as_they_are() {
    let odd = Credentials::new("", "p&s=1 ü");
    let request = CommandEncoder::encode(&camera(), CameraCmd::PtzRight, &odd);
    assert_eq!(request.loginuse, "");
    assert_eq!(request.loginpas, "p&s=1 ü");
    assert_eq!(
        request.url(),
        "http://192.168.1.50:1306/decoder_control.cgi?loginuse=&loginpas=p&s=1 ü&command=6&onestep=0"
    );
}

#[test]
fn credentials_duplicate_is_equal() {
    let first = admin();
    let copy = first.duplicate();
    assert_eq!(copy, first);
    assert_eq!(copy.username, "admin");
    assert_eq!(copy.password, "qwerpoiu");
}
