//! The reply text buffer: one expression per line, and handshakes refused.

use nexus::{Error, RenderedReply, Renderer};

#[test]
fn a_new_renderer_holds_no_text() {
    assert_eq!(Renderer::new().into_text(), "");
    assert_eq!(Renderer::default().into_text(), "");
}

#[test]
fn successive_replies_are_one_per_line() {
    let mut renderer = Renderer::new();
    assert_eq!(renderer.render_reply(&RenderedReply::Outcome("(Ok)".to_owned())), Ok(()));
    assert_eq!(
        renderer.render_reply(&RenderedReply::Outcomes("[(Ok) (Ok)]".to_owned())),
        Ok(())
    );
    assert_eq!(
        renderer.render_reply(&RenderedReply::Records("[]".to_owned())),
        Ok(())
    );
    assert_eq!(renderer.into_text(), "(Ok)\n[(Ok) (Ok)]\n[]");
}

#[test]
fn a_handshake_reply_is_a_protocol_error_and_renders_nothing() {
    let mut renderer = Renderer::new();
    renderer.append_expression("(Ok)");
    assert_eq!(
        renderer.render_reply(&RenderedReply::HandshakeAccepted),
        Err(Error::HandshakePostReplyShape { got: "HandshakeAccepted" })
    );
    assert_eq!(
        renderer.render_reply(&RenderedReply::HandshakeRejected),
        Err(Error::HandshakePostReplyShape { got: "HandshakeRejected" })
    );
    assert_eq!(renderer.into_text(), "(Ok)");
}

#[test]
fn the_first_expression_has_no_separator() {
    let mut renderer = Renderer::new();
    renderer.append_expression("(Diagnostic Error [E0001] [bad])");
    assert_eq!(renderer.into_text(), "(Diagnostic Error [E0001] [bad])");
}

#[test]
fn every_error_kind_has_its_own_code() {
    let errors = [
        (Error::Codec, "E0001"),
        (Error::VerbNotInM0Scope, "E0099"),
        (Error::Io, "E0010"),
        (Error::Frame, "E0011"),
        (Error::FrameTooLarge, "E0012"),
        (Error::HandshakeRejected, "E0020"),
        (Error::HandshakePostReplyShape { got: "HandshakeAccepted" }, "E0021"),
        (Error::ActorCall, "E0030"),
        (Error::ActorSpawn, "E0031"),
    ];
    for (error, code) in errors {
        assert_eq!(Renderer::local_error_code(&error), code);
    }
    for (first, first_code) in errors {
        for (second, _) in errors {
            let same = std::mem::discriminant(&first) == std::mem::discriminant(&second);
            assert_eq!(Renderer::local_error_code(&second) == first_code, same);
        }
    }
}

#[test]
fn replies_and_expressions_interleave_one_per_line() {
    let mut renderer = Renderer::new();
    renderer.append_expression("(Diagnostic Error [E0001] [bad])");
    assert!(renderer.render_reply(&RenderedReply::HandshakeRejected).is_err());
    assert_eq!(renderer.render_reply(&RenderedReply::Outcome("(Ok)".to_owned())), Ok(()));
    renderer.append_expression("(Diagnostic Error [E0010] [io])");
    assert_eq!(
        renderer.into_text(),
        "(Diagnostic Error [E0001] [bad])\n(Ok)\n(Diagnostic Error [E0010] [io])"
    );
}
