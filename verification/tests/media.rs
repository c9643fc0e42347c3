use st_server::media::{
    client_hardware_video_codecs, client_hardware_yuv444_video_codecs, client_hdr_display,
    client_supported_video_codecs, client_supported_yuv444_video_codecs, codec_name,
    codec_support_summary, encoder_chroma_name, supports_yuv444_codec, ChromaSampling,
    ClientDisplayInfo, VideoCodec, VideoCodecSupport,
};

#[test]
fn codecs_have_names() {
    assert_eq!(codec_name(VideoCodec::H264), "h264");
    assert_eq!(codec_name(VideoCodec::Hevc), "hevc");
    assert_eq!(codec_name(VideoCodec::Av1), "av1");
    assert_eq!(encoder_chroma_name(ChromaSampling::Yuv420), "yuv420");
    assert_eq!(encoder_chroma_name(ChromaSampling::Yuv444), "yuv444");
    assert!(supports_yuv444_codec(VideoCodec::Hevc));
    assert!(!supports_yuv444_codec(VideoCodec::Av1));
}

#[test]
fn codec_sets_are_summed_up() {
    let all = VideoCodecSupport { h264: true, hevc: true, av1: true };
    assert_eq!(codec_support_summary(all), "h264 / hevc / av1");
    assert_eq!(codec_support_summary(VideoCodecSupport { hevc: false, ..all }), "h264 / av1");
    assert_eq!(codec_support_summary(VideoCodecSupport::empty()), "-");
}

#[test]
fn a_silent_client_decodes_h264_in_software() {
    assert_eq!(client_supported_video_codecs(None), VideoCodecSupport::h264_only());
    assert_eq!(client_hardware_video_codecs(None), VideoCodecSupport::empty());
    assert_eq!(client_supported_yuv444_video_codecs(None), VideoCodecSupport::empty());
    assert_eq!(client_hardware_yuv444_video_codecs(None), VideoCodecSupport::empty());
    assert!(!client_hdr_display(None));
    let info = ClientDisplayInfo {
        max_refresh_millihz: 60_000,
        udp_port: 0,
        hdr_display: true,
        supported_video_codecs: VideoCodecSupport { h264: false, hevc: true, av1: false },
        hardware_video_codecs: VideoCodecSupport { h264: false, hevc: true, av1: true },
        supported_yuv444_video_codecs: VideoCodecSupport { h264: true, hevc: false, av1: false },
        hardware_yuv444_video_codecs: VideoCodecSupport { h264: true, hevc: true, av1: false },
    };
    assert_eq!(client_supported_video_codecs(Some(info)), info.supported_video_codecs);
    assert_eq!(client_hardware_video_codecs(Some(info)), info.hardware_video_codecs);
    assert_eq!(
        client_supported_yuv444_video_codecs(Some(info)),
        info.supported_yuv444_video_codecs
    );
    assert_eq!(client_hardware_yuv444_video_codecs(Some(info)), info.hardware_yuv444_video_codecs);
    assert!(client_hdr_display(Some(info)));
}
