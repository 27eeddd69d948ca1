use mrcp_plugin::error::{Error, HeaderId};
use mrcp_plugin::headers::recog::{
    extract_noinput_timeout, extract_recognition_timeout, extract_sensitivity,
    extract_speech_complete_timeout, extract_start_input_timers, speech_complete_delay,
    RecogHeaders,
};
use mrcp_plugin::request::{
    RecogHeader, Request, ResourceHeader, SynthHeader, HOST_TRUE,
};
use mrcp_plugin::text::AptStr;

fn recog_header() -> RecogHeader {
    RecogHeader {
        sensitivity_level: 0.25f64.to_bits(),
        no_input_timeout: 7000,
        recognition_timeout: 15000,
        start_input_timers: 0,
        speech_complete_timeout: 3,
    }
}

fn recog_request(properties: Vec<HeaderId>, header: Option<RecogHeader>) -> Request {
    Request {
        properties,
        generic_header: None,
        resource_header: header.map(ResourceHeader::Recognizer),
        body: AptStr { buf: None },
    }
}

fn every_recog_flag() -> Vec<HeaderId> {
    vec![
        HeaderId::SensitivityLevel,
        HeaderId::NoInputTimeout,
        HeaderId::RecognitionTimeout,
        HeaderId::StartInputTimers,
        HeaderId::SpeechCompleteTimeout,
    ]
}

#[test]
fn recog_null_request_reports_null_request() {
    assert_eq!(extract_sensitivity(None), Err(Error::NullRequest));
    assert_eq!(extract_noinput_timeout(None), Err(Error::NullRequest));
    assert_eq!(extract_recognition_timeout(None), Err(Error::NullRequest));
    assert_eq!(extract_start_input_timers(None), Err(Error::NullRequest));
    assert_eq!(extract_speech_complete_timeout(None), Err(Error::NullRequest));
}

#[test]
fn recog_view_of_null_request_keeps_errors_and_gives_defaults() {
    let headers = RecogHeaders::new(None);
    assert_eq!(headers.sensitivity, Err(Error::NullRequest));
    assert_eq!(headers.noinput_timeout, Err(Error::NullRequest));
    assert_eq!(headers.recognition_timeout, Err(Error::NullRequest));
    assert_eq!(headers.start_input_timers, Err(Error::NullRequest));
    assert_eq!(headers.silence_timeout, Err(Error::NullRequest));
    assert_eq!(headers.vendor_specific.len(), 0);
    assert_eq!(f64::from_bits(headers.sensitivity()), 0.6);
    assert_eq!(headers.noinput_timeout(), 5000);
    assert_eq!(headers.recognition_timeout(), 20000);
    assert!(headers.start_input_timers());
    assert_eq!(headers.silence_timeout(), 1000);
}

#[test]
fn recog_flags_down_report_no_such_header() {
    let request = recog_request(Vec::new(), Some(recog_header()));
    let request = Some(&request);
    assert_eq!(
        extract_sensitivity(request),
        Err(Error::NoSuchHeader(HeaderId::SensitivityLevel))
    );
    assert_eq!(
        extract_noinput_timeout(request),
        Err(Error::NoSuchHeader(HeaderId::NoInputTimeout))
    );
    assert_eq!(
        extract_recognition_timeout(request),
        Err(Error::NoSuchHeader(HeaderId::RecognitionTimeout))
    );
    assert_eq!(
        extract_start_input_timers(request),
        Err(Error::NoSuchHeader(HeaderId::StartInputTimers))
    );
    assert_eq!(
        extract_speech_complete_timeout(request),
        Err(Error::NoSuchHeader(HeaderId::SpeechCompleteTimeout))
    );
}

#[test]
fn recog_flags_down_give_documented_defaults() {
    let request = recog_request(Vec::new(), Some(recog_header()));
    let headers = RecogHeaders::new(Some(&request));
    assert_eq!(headers.sensitivity(), 0x3FE3_3333_3333_3333);
    assert_eq!(f64::from_bits(headers.sensitivity()), 0.6);
    assert_eq!(headers.noinput_timeout(), 5000);
    assert_eq!(headers.recognition_timeout(), 20000);
    assert!(headers.start_input_timers());
    assert_eq!(headers.silence_timeout(), 1000);
}

#[test]
fn recog_flags_up_read_the_fields() {
    let request = recog_request(every_recog_flag(), Some(recog_header()));
    let headers = RecogHeaders::new(Some(&request));
    assert_eq!(headers.sensitivity, Ok(0.25f64.to_bits()));
    assert_eq!(headers.noinput_timeout, Ok(7000));
    assert_eq!(headers.recognition_timeout, Ok(15000));
    assert_eq!(headers.start_input_timers, Ok(false));
    assert_eq!(headers.silence_timeout, Ok(3000));
    assert_eq!(f64::from_bits(headers.sensitivity()), 0.25);
    assert_eq!(headers.noinput_timeout(), 7000);
    assert_eq!(headers.recognition_timeout(), 15000);
    assert!(!headers.start_input_timers());
    assert_eq!(headers.silence_timeout(), 3000);
}

#[test]
fn recog_each_field_is_extracted_on_its_own() {
    let request = recog_request(vec![HeaderId::RecognitionTimeout], Some(recog_header()));
    let headers = RecogHeaders::new(Some(&request));
    assert_eq!(headers.recognition_timeout, Ok(15000));
    assert_eq!(headers.noinput_timeout, Err(Error::NoSuchHeader(HeaderId::NoInputTimeout)));
    assert_eq!(headers.recognition_timeout(), 15000);
    assert_eq!(headers.noinput_timeout(), 5000);
}

#[test]
fn recog_value_equal_to_default_stays_distinguishable() {
    let mut header = recog_header();
    header.no_input_timeout = 5000;
    let sent = recog_request(vec![HeaderId::NoInputTimeout], Some(header));
    let not_sent = recog_request(Vec::new(), Some(recog_header()));
    let sent = RecogHeaders::new(Some(&sent));
    let not_sent = RecogHeaders::new(Some(&not_sent));
    assert_eq!(sent.noinput_timeout(), not_sent.noinput_timeout());
    assert_eq!(sent.noinput_timeout, Ok(5000));
    assert_eq!(not_sent.noinput_timeout, Err(Error::NoSuchHeader(HeaderId::NoInputTimeout)));
}

#[test]
fn recog_unreachable_block_reports_no_such_header() {
    let request = recog_request(every_recog_flag(), None);
    let request = Some(&request);
    assert_eq!(
        extract_sensitivity(request),
        Err(Error::NoSuchHeader(HeaderId::SensitivityLevel))
    );
    assert_eq!(
        extract_speech_complete_timeout(request),
        Err(Error::NoSuchHeader(HeaderId::SpeechCompleteTimeout))
    );
}

#[test]
fn recog_fields_are_not_read_from_a_synthesizer_block() {
    let request = Request {
        properties: every_recog_flag(),
        generic_header: None,
        resource_header: Some(ResourceHeader::Synthesizer(SynthHeader {
            voice_name: AptStr { buf: None },
        })),
        body: AptStr { buf: None },
    };
    assert_eq!(
        extract_noinput_timeout(Some(&request)),
        Err(Error::NoSuchHeader(HeaderId::NoInputTimeout))
    );
}

#[test]
fn start_input_timers_converts_the_host_boolean() {
    let mut header = recog_header();
    header.start_input_timers = HOST_TRUE;
    let request = recog_request(vec![HeaderId::StartInputTimers], Some(header));
    assert_eq!(extract_start_input_timers(Some(&request)), Ok(true));
    let mut header = recog_header();
    header.start_input_timers = 0;
    let request = recog_request(vec![HeaderId::StartInputTimers], Some(header));
    assert_eq!(extract_start_input_timers(Some(&request)), Ok(false));
    let mut header = recog_header();
    header.start_input_timers = 2;
    let request = recog_request(vec![HeaderId::StartInputTimers], Some(header));
    assert_eq!(extract_start_input_timers(Some(&request)), Ok(false));
}

#[test]
fn speech_complete_zero_and_one_give_one_second() {
    assert_eq!(speech_complete_delay(0), 1000);
    assert_eq!(speech_complete_delay(1), 1000);
}

#[test]
fn speech_complete_two_to_four_are_seconds() {
    assert_eq!(speech_complete_delay(2), 2000);
    assert_eq!(speech_complete_delay(3), 3000);
    assert_eq!(speech_complete_delay(4), 4000);
}

#[test]
fn speech_complete_five_to_twenty_give_1200() {
    let mut raw: usize = 5;
    while raw <= 20 {
        assert_eq!(speech_complete_delay(raw), 1200);
        raw += 1;
    }
}

#[test]
fn speech_complete_other_values_are_verbatim() {
    assert_eq!(speech_complete_delay(21), 21);
    assert_eq!(speech_complete_delay(22), 22);
    assert_eq!(speech_complete_delay(1000), 1000);
    assert_eq!(speech_complete_delay(1200), 1200);
    assert_eq!(speech_complete_delay(usize::MAX), usize::MAX);
}

#[test]
fn speech_complete_timeout_is_bucketed_on_extraction() {
    let cases: [(usize, usize); 8] =
        [(0, 1000), (1, 1000), (2, 2000), (4, 4000), (5, 1200), (20, 1200), (21, 21), (500, 500)];
    for (raw, delay) in cases {
        let mut header = recog_header();
        header.speech_complete_timeout = raw;
        let request = recog_request(vec![HeaderId::SpeechCompleteTimeout], Some(header));
        assert_eq!(extract_speech_complete_timeout(Some(&request)), Ok(delay));
    }
}

#[test]
fn property_check_finds_raised_flags_only() {
    let request = recog_request(
        vec![HeaderId::NoInputTimeout, HeaderId::SensitivityLevel],
        Some(recog_header()),
    );
    assert!(request.property_check(HeaderId::NoInputTimeout));
    assert!(request.property_check(HeaderId::SensitivityLevel));
    assert!(!request.property_check(HeaderId::RecognitionTimeout));
    assert!(!request.property_check(HeaderId::VoiceName));
}
