use mic_capture::message::{Command, Msg};
use mic_capture::model::Model;
use mic_capture::page::{view, Page};
use mic_capture::settings::{
    recorder_options, stream_constraints, RecorderOptions, StreamConstraints,
    AUDIO_BITS_PER_SECOND,
};
use mic_capture::update::update;

#[test]
fn view_of_a_new_page_shows_zero() {
    let model: Model<u32, u32> = Model::new();
    assert_eq!(
        view(&model),
        Page { caption: "Last chunk length: ", chunk_len: 0, stop_label: "Stop" }
    );
}

#[test]
fn view_shows_the_size_of_the_last_chunk() {
    let mut model: Model<u32, u32> = Model::new();
    update(Msg::<u8, u16>::BlobRead(vec![1, 2, 3, 4, 5]), &mut model);
    assert_eq!(view(&model).chunk_len, 5);
    update(Msg::<u8, u16>::BlobRead(vec![7; 300]), &mut model);
    assert_eq!(
        view(&model),
        Page { caption: "Last chunk length: ", chunk_len: 300, stop_label: "Stop" }
    );
}

#[test]
fn view_does_not_depend_on_the_recorder() {
    let idle: Model<u32, u32> =
        Model { recorder: None, on_data_callback: None, last_chunk: vec![1, 1] };
    let busy: Model<u32, u32> =
        Model { recorder: Some(4), on_data_callback: Some(5), last_chunk: vec![2, 2] };
    assert_eq!(view(&idle), view(&busy));
}

#[test]
fn stop_button_delivers_a_stop_request() {
    let mut model: Model<u32, u32> =
        Model { recorder: Some(4), on_data_callback: Some(5), last_chunk: vec![] };
    let page = view(&model);
    assert_eq!(page.on_stop::<u8, u16>(), Msg::StopRecording);
    assert_eq!(update(page.on_stop::<u8, u16>(), &mut model), Command::StopRecorder(4));
    assert_eq!(model.recorder, None);
}

#[test]
fn page_changes_only_when_bytes_are_read() {
    let mut model: Model<u32, u32> = Model::new();
    update(Msg::<u8, u16>::BlobRead(vec![1, 2, 3]), &mut model);
    let before = view(&model);
    update(Msg::<u8, u16>::AudioStream(1), &mut model);
    model.recorder_started(8, 9);
    update(Msg::<u8, u16>::BlobReceived(2), &mut model);
    update(Msg::<u8, u16>::StopRecording, &mut model);
    assert_eq!(view(&model), before);
    update(Msg::<u8, u16>::BlobRead(vec![1]), &mut model);
    assert_eq!(view(&model).chunk_len, 1);
}

#[test]
fn stream_constraints_ask_for_audio_alone() {
    assert_eq!(stream_constraints(), StreamConstraints { audio: true, video: false });
}

#[test]
fn recorder_options_are_opus_at_64_kbit() {
    assert_eq!(
        recorder_options(),
        RecorderOptions { audio_bits_per_second: 64_000, mime_type: "audio/ogg;codecs=opus" }
    );
    assert_eq!(AUDIO_BITS_PER_SECOND, 64_000);
}
