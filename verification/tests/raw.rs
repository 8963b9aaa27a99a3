use ocl_raw::context::{context_info_size, CL_CONTEXT_DEVICES, CONTEXT_INFO_SIZE_MAX};
use ocl_raw::device::{device_id_list, resolve_device_type, DEFAULT_DEVICE_TYPE, DEVICES_MAX};
use ocl_raw::error::{errcode_assert, errcode_string, errcode_try, Error};
use ocl_raw::kernel::{check_c_name, create_kernel_label, enqueue_kernel_label};
use ocl_raw::platform::{platform_info_line, CL_PLATFORM_NAME};
use ocl_raw::program::{build_log_error, build_outcome, program_build_log};
use ocl_raw::queue::{buffer_byte_len, byte_len, resolve_queue_opts, resolve_work_dims};
use ocl_raw::status::ClStatus;
use ocl_raw::text::decimal_string;

const INVALID_CONTEXT: &str = "\n\nocl::raw::context_info(): Possible invalid context detected. \n\
    Context info result size is either '> 10k bytes' or '== 0'. Almost certainly an \n\
    invalid context object. If not, please file an issue at: \n\
    https://github.com/cogciprocate/ocl/issues.\n\n";

fn message(e: Error) -> String {
    match e {
        Error::Message(m) => m,
        Error::Nul(p) => panic!("unexpected nul error at {}", p),
    }
}

#[test]
fn errcode_try_success_is_ok() {
    assert!(errcode_try("clFinish()", 0).is_ok());
}

#[test]
fn errcode_try_names_known_status() {
    let e = errcode_try("clFinish()", -36).unwrap_err();
    assert_eq!(
        message(e),
        "\n\nOPENCL ERROR: clFinish() failed with code: CL_INVALID_COMMAND_QUEUE\n\n"
    );
}

#[test]
fn errcode_try_names_unknown_status() {
    let e = errcode_try("clGetPlatformIDs()", -9999).unwrap_err();
    assert_eq!(
        message(e),
        "\n\nOPENCL ERROR: clGetPlatformIDs() failed with code: [Unknown Error Code: -9999]\n\n"
    );
}

#[test]
fn errcode_try_positive_code_is_error() {
    let e = errcode_try("clBuildProgram()", 7).unwrap_err();
    assert_eq!(
        message(e),
        "\n\nOPENCL ERROR: clBuildProgram() failed with code: [Unknown Error Code: 7]\n\n"
    );
}

#[test]
fn errcode_assert_accepts_success() {
    errcode_assert("clReleaseEvent", 0);
}

#[test]
fn errcode_string_of_statuses() {
    assert_eq!(errcode_string(0), "CL_SUCCESS");
    assert_eq!(errcode_string(-1), "CL_DEVICE_NOT_FOUND");
    assert_eq!(errcode_string(-30), "CL_INVALID_VALUE");
    assert_eq!(errcode_string(-68), "CL_INVALID_DEVICE_PARTITION_COUNT");
    assert_eq!(errcode_string(-1001), "CL_PLATFORM_NOT_FOUND_KHR");
    assert_eq!(errcode_string(-20), "[Unknown Error Code: -20]");
    assert_eq!(errcode_string(i32::MIN), "[Unknown Error Code: -2147483648]");
}

#[test]
fn status_round_trip_for_every_status() {
    let all = [
        ClStatus::CL_SUCCESS,
        ClStatus::CL_OUT_OF_RESOURCES,
        ClStatus::CL_KERNEL_ARG_INFO_NOT_AVAILABLE,
        ClStatus::CL_INVALID_VALUE,
        ClStatus::CL_INVALID_KERNEL_NAME,
        ClStatus::CL_INVALID_DEVICE_PARTITION_COUNT,
        ClStatus::CL_PLATFORM_NOT_FOUND_KHR,
    ];
    for s in all.iter() {
        assert_eq!(ClStatus::from_i32(s.code()), Some(*s));
        assert_eq!(format!("{:?}", s), s.name());
    }
    for code in -1100..100 {
        if let Some(s) = ClStatus::from_i32(code) {
            assert_eq!(s.code(), code);
        }
    }
    assert_eq!(ClStatus::from_i32(-25), None);
    assert_eq!(ClStatus::from_i32(1), None);
}

#[test]
fn decimal_string_values() {
    assert_eq!(decimal_string(0), "0");
    assert_eq!(decimal_string(7), "7");
    assert_eq!(decimal_string(10), "10");
    assert_eq!(decimal_string(-307), "-307");
    assert_eq!(decimal_string(i64::MAX), i64::MAX.to_string());
    assert_eq!(decimal_string(i64::MIN), i64::MIN.to_string());
    for n in -1000..1000i64 {
        assert_eq!(decimal_string(n), format!("{}", n));
    }
}

#[test]
fn resolve_queue_opts_absent_and_empty_lists() {
    let none = resolve_queue_opts::<u64>(None, None).unwrap();
    assert_eq!(none.wait_list_len, 0);
    assert!(!none.wait_list_given);
    assert!(!none.new_event_given);

    let empty: [u64; 0] = [];
    let e = resolve_queue_opts::<u64>(Some(&empty[..]), None).unwrap();
    assert_eq!(e, none);
}

#[test]
fn resolve_queue_opts_with_events() {
    let wl = [1u64, 2, 3];
    let mut ev = 0u64;
    let q = resolve_queue_opts(Some(&wl[..]), Some(&mut ev)).unwrap();
    assert_eq!(q.wait_list_len, 3);
    assert!(q.wait_list_given);
    assert!(q.new_event_given);
}

#[test]
fn resolve_work_dims_passes_sizes() {
    let w = Some([4usize, 2, 1]);
    assert_eq!(resolve_work_dims(&w), Some(&[4usize, 2, 1]));
    assert_eq!(resolve_work_dims(&None), None);
}

#[test]
fn byte_lengths() {
    assert_eq!(byte_len::<u32>(10), 40);
    assert_eq!(byte_len::<u8>(3), 3);
    assert_eq!(byte_len::<[f32; 4]>(2), 32);
    let data = [1u64, 2];
    assert_eq!(buffer_byte_len::<u64>(2, Some(&data[..])), 16);
    assert_eq!(buffer_byte_len::<u16>(5, None), 10);
}

#[test]
fn context_info_size_reports_error_code() {
    let e = context_info_size(CL_CONTEXT_DEVICES, -34, 8).unwrap_err();
    assert_eq!(
        message(e),
        "\n\nOPENCL ERROR: clGetContextInfo failed with code: CL_INVALID_CONTEXT\n\n"
    );
}

#[test]
fn context_info_size_rejects_no_devices() {
    let e = context_info_size(CL_CONTEXT_DEVICES, 0, 0).unwrap_err();
    assert_eq!(message(e), INVALID_CONTEXT);
}

#[test]
fn context_info_size_rejects_huge_size() {
    let e = context_info_size(0x1080, 0, CONTEXT_INFO_SIZE_MAX + 1).unwrap_err();
    assert_eq!(message(e), INVALID_CONTEXT);
}

#[test]
fn context_info_size_accepts_plausible_sizes() {
    assert_eq!(context_info_size(CL_CONTEXT_DEVICES, 0, 8).unwrap(), 8);
    assert_eq!(context_info_size(CL_CONTEXT_DEVICES, 0, 10000).unwrap(), 10000);
    assert_eq!(context_info_size(0x1080, 0, 0).unwrap(), 0);
}

#[test]
fn build_outcome_cases() {
    assert!(build_outcome(-11).is_none());
    assert!(build_outcome(0).unwrap().is_ok());
    let e = build_outcome(3).unwrap().unwrap_err();
    assert_eq!(
        message(e),
        "\n\nOPENCL ERROR: clBuildProgram() failed with code: [Unknown Error Code: 3]\n\n"
    );
}

#[test]
fn program_build_log_short_log_is_ok() {
    assert!(program_build_log(0, vec![]).is_ok());
    assert!(program_build_log(1, vec![0]).is_ok());
}

#[test]
fn program_build_log_shows_log() {
    let log = b"error: \xc3\xa9\0".to_vec();
    let e = program_build_log(log.len(), log).unwrap_err();
    assert_eq!(
        message(e),
        "\n\n###################### OPENCL PROGRAM BUILD DEBUG OUTPUT ######################\n\n\
         error: \u{e9}\0\n\
         ###############################################################################\n\n"
    );
}

#[test]
fn program_build_log_invalid_utf8() {
    let log = vec![0x66u8, 0xff, 0];
    let e = program_build_log(3, log.clone()).unwrap_err();
    assert_eq!(message(e), String::from_utf8(log).unwrap_err().to_string());
}

#[test]
fn device_list_takes_available_prefix() {
    let arr = [10u32, 20, 30, 40];
    assert_eq!(device_id_list(&arr, 2), vec![10, 20]);
    assert_eq!(device_id_list(&arr, 0), Vec::<u32>::new());
    assert_eq!(device_id_list(&arr, 4), vec![10, 20, 30, 40]);
}

#[test]
fn device_type_defaults() {
    assert_eq!(resolve_device_type(None), DEFAULT_DEVICE_TYPE);
    assert_eq!(resolve_device_type(Some(1 << 1)), 2);
    assert_eq!(DEFAULT_DEVICE_TYPE, 4);
    assert_eq!(DEVICES_MAX, 16);
}

#[test]
fn platform_info_line_text() {
    let line = platform_info_line(CL_PLATFORM_NAME, b"AMD Accelerated Parallel Processing".to_vec());
    assert_eq!(line.unwrap(), "*** Platform Name (2306): AMD Accelerated Parallel Processing");
    assert!(platform_info_line(CL_PLATFORM_NAME, vec![0xc3]).is_none());
}

#[test]
fn c_name_check() {
    assert!(check_c_name("add").is_ok());
    match check_c_name("a\0b\0") {
        Err(Error::Nul(p)) => assert_eq!(p, 1),
        _ => panic!("expected a nul error"),
    }
}

#[test]
fn kernel_labels() {
    assert_eq!(create_kernel_label("add"), "clCreateKernel('add'):");
    assert_eq!(enqueue_kernel_label(Some("add")), "ocl::Kernel::enqueue()[add]:");
    assert_eq!(enqueue_kernel_label(None), "ocl::Kernel::enqueue()[]:");
}

#[test]
fn build_log_error_from_decoded() {
    let e = build_log_error(Ok("warning\0".to_string())).unwrap_err();
    assert_eq!(
        message(e),
        "\n\n###################### OPENCL PROGRAM BUILD DEBUG OUTPUT ######################\n\n\
         warning\0\n\
         ###############################################################################\n\n"
    );
    let e = build_log_error(Err("incomplete utf-8 byte sequence from index 1".to_string())).unwrap_err();
    assert_eq!(message(e), "incomplete utf-8 byte sequence from index 1");
}
