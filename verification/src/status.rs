//! OpenCL status codes: the table that relates each status to its numeric
//! code and to its name.

use vstd::prelude::*;

verus! {

/// The status codes that OpenCL calls report.
#[allow(non_camel_case_types)]
#[derive(Debug, Clone, Copy, PartialEq, Eq, Structural)]
pub enum ClStatus {
    CL_SUCCESS,
    CL_DEVICE_NOT_FOUND,
    CL_DEVICE_NOT_AVAILABLE,
    CL_COMPILER_NOT_AVAILABLE,
    CL_MEM_OBJECT_ALLOCATION_FAILURE,
    CL_OUT_OF_RESOURCES,
    CL_OUT_OF_HOST_MEMORY,
    CL_PROFILING_INFO_NOT_AVAILABLE,
    CL_MEM_COPY_OVERLAP,
    CL_IMAGE_FORMAT_MISMATCH,
    CL_IMAGE_FORMAT_NOT_SUPPORTED,
    CL_BUILD_PROGRAM_FAILURE,
    CL_MAP_FAILURE,
    CL_MISALIGNED_SUB_BUFFER_OFFSET,
    CL_EXEC_STATUS_ERROR_FOR_EVENTS_IN_WAIT_LIST,
    CL_COMPILE_PROGRAM_FAILURE,
    CL_LINKER_NOT_AVAILABLE,
    CL_LINK_PROGRAM_FAILURE,
    CL_DEVICE_PARTITION_FAILED,
    CL_KERNEL_ARG_INFO_NOT_AVAILABLE,
    CL_INVALID_VALUE,
    CL_INVALID_DEVICE_TYPE,
    CL_INVALID_PLATFORM,
    CL_INVALID_DEVICE,
    CL_INVALID_CONTEXT,
    CL_INVALID_QUEUE_PROPERTIES,
    CL_INVALID_COMMAND_QUEUE,
    CL_INVALID_HOST_PTR,
    CL_INVALID_MEM_OBJECT,
    CL_INVALID_IMAGE_FORMAT_DESCRIPTOR,
    CL_INVALID_IMAGE_SIZE,
    CL_INVALID_SAMPLER,
    CL_INVALID_BINARY,
    CL_INVALID_BUILD_OPTIONS,
    CL_INVALID_PROGRAM,
    CL_INVALID_PROGRAM_EXECUTABLE,
    CL_INVALID_KERNEL_NAME,
    CL_INVALID_KERNEL_DEFINITION,
    CL_INVALID_KERNEL,
    CL_INVALID_ARG_INDEX,
    CL_INVALID_ARG_VALUE,
    CL_INVALID_ARG_SIZE,
    CL_INVALID_KERNEL_ARGS,
    CL_INVALID_WORK_DIMENSION,
    CL_INVALID_WORK_GROUP_SIZE,
    CL_INVALID_WORK_ITEM_SIZE,
    CL_INVALID_GLOBAL_OFFSET,
    CL_INVALID_EVENT_WAIT_LIST,
    CL_INVALID_EVENT,
    CL_INVALID_OPERATION,
    CL_INVALID_GL_OBJECT,
    CL_INVALID_BUFFER_SIZE,
    CL_INVALID_MIP_LEVEL,
    CL_INVALID_GLOBAL_WORK_SIZE,
    CL_INVALID_PROPERTY,
    CL_INVALID_IMAGE_DESCRIPTOR,
    CL_INVALID_COMPILER_OPTIONS,
    CL_INVALID_LINKER_OPTIONS,
    CL_INVALID_DEVICE_PARTITION_COUNT,
    CL_PLATFORM_NOT_FOUND_KHR,
}

impl ClStatus {
    /// The numeric code that OpenCL reports for this status.
    pub open spec fn spec_code(self) -> i32 {
        match self {
            ClStatus::CL_SUCCESS => 0i32,
            ClStatus::CL_DEVICE_NOT_FOUND => -1i32,
            ClStatus::CL_DEVICE_NOT_AVAILABLE => -2i32,
            ClStatus::CL_COMPILER_NOT_AVAILABLE => -3i32,
            ClStatus::CL_MEM_OBJECT_ALLOCATION_FAILURE => -4i32,
            ClStatus::CL_OUT_OF_RESOURCES => -5i32,
            ClStatus::CL_OUT_OF_HOST_MEMORY => -6i32,
            ClStatus::CL_PROFILING_INFO_NOT_AVAILABLE => -7i32,
            ClStatus::CL_MEM_COPY_OVERLAP => -8i32,
            ClStatus::CL_IMAGE_FORMAT_MISMATCH => -9i32,
            ClStatus::CL_IMAGE_FORMAT_NOT_SUPPORTED => -10i32,
            ClStatus::CL_BUILD_PROGRAM_FAILURE => -11i32,
            ClStatus::CL_MAP_FAILURE => -12i32,
            ClStatus::CL_MISALIGNED_SUB_BUFFER_OFFSET => -13i32,
            ClStatus::CL_EXEC_STATUS_ERROR_FOR_EVENTS_IN_WAIT_LIST => -14i32,
            ClStatus::CL_COMPILE_PROGRAM_FAILURE => -15i32,
            ClStatus::CL_LINKER_NOT_AVAILABLE => -16i32,
            ClStatus::CL_LINK_PROGRAM_FAILURE => -17i32,
            ClStatus::CL_DEVICE_PARTITION_FAILED => -18i32,
            ClStatus::CL_KERNEL_ARG_INFO_NOT_AVAILABLE => -19i32,
            ClStatus::CL_INVALID_VALUE => -30i32,
            ClStatus::CL_INVALID_DEVICE_TYPE => -31i32,
            ClStatus::CL_INVALID_PLATFORM => -32i32,
            ClStatus::CL_INVALID_DEVICE => -33i32,
            ClStatus::CL_INVALID_CONTEXT => -34i32,
            ClStatus::CL_INVALID_QUEUE_PROPERTIES => -35i32,
            ClStatus::CL_INVALID_COMMAND_QUEUE => -36i32,
            ClStatus::CL_INVALID_HOST_PTR => -37i32,
            ClStatus::CL_INVALID_MEM_OBJECT => -38i32,
            ClStatus::CL_INVALID_IMAGE_FORMAT_DESCRIPTOR => -39i32,
            ClStatus::CL_INVALID_IMAGE_SIZE => -40i32,
            ClStatus::CL_INVALID_SAMPLER => -41i32,
            ClStatus::CL_INVALID_BINARY => -42i32,
            ClStatus::CL_INVALID_BUILD_OPTIONS => -43i32,
            ClStatus::CL_INVALID_PROGRAM => -44i32,
            ClStatus::CL_INVALID_PROGRAM_EXECUTABLE => -45i32,
            ClStatus::CL_INVALID_KERNEL_NAME => -46i32,
            ClStatus::CL_INVALID_KERNEL_DEFINITION => -47i32,
            ClStatus::CL_INVALID_KERNEL => -48i32,
            ClStatus::CL_INVALID_ARG_INDEX => -49i32,
            ClStatus::CL_INVALID_ARG_VALUE => -50i32,
            ClStatus::CL_INVALID_ARG_SIZE => -51i32,
            ClStatus::CL_INVALID_KERNEL_ARGS => -52i32,
            ClStatus::CL_INVALID_WORK_DIMENSION => -53i32,
            ClStatus::CL_INVALID_WORK_GROUP_SIZE => -54i32,
            ClStatus::CL_INVALID_WORK_ITEM_SIZE => -55i32,
            ClStatus::CL_INVALID_GLOBAL_OFFSET => -56i32,
            ClStatus::CL_INVALID_EVENT_WAIT_LIST => -57i32,
            ClStatus::CL_INVALID_EVENT => -58i32,
            ClStatus::CL_INVALID_OPERATION => -59i32,
            ClStatus::CL_INVALID_GL_OBJECT => -60i32,
            ClStatus::CL_INVALID_BUFFER_SIZE => -61i32,
            ClStatus::CL_INVALID_MIP_LEVEL => -62i32,
            ClStatus::CL_INVALID_GLOBAL_WORK_SIZE => -63i32,
            ClStatus::CL_INVALID_PROPERTY => -64i32,
            ClStatus::CL_INVALID_IMAGE_DESCRIPTOR => -65i32,
            ClStatus::CL_INVALID_COMPILER_OPTIONS => -66i32,
            ClStatus::CL_INVALID_LINKER_OPTIONS => -67i32,
            ClStatus::CL_INVALID_DEVICE_PARTITION_COUNT => -68i32,
            ClStatus::CL_PLATFORM_NOT_FOUND_KHR => -1001i32,
        }
    }

    /// The name of this status, as its `Debug` form prints it.
    pub open spec fn spec_name(self) -> Seq<char> {
        match self {
            ClStatus::CL_SUCCESS => "CL_SUCCESS"@,
            ClStatus::CL_DEVICE_NOT_FOUND => "CL_DEVICE_NOT_FOUND"@,
            ClStatus::CL_DEVICE_NOT_AVAILABLE => "CL_DEVICE_NOT_AVAILABLE"@,
            ClStatus::CL_COMPILER_NOT_AVAILABLE => "CL_COMPILER_NOT_AVAILABLE"@,
            ClStatus::CL_MEM_OBJECT_ALLOCATION_FAILURE => "CL_MEM_OBJECT_ALLOCATION_FAILURE"@,
            ClStatus::CL_OUT_OF_RESOURCES => "CL_OUT_OF_RESOURCES"@,
            ClStatus::CL_OUT_OF_HOST_MEMORY => "CL_OUT_OF_HOST_MEMORY"@,
            ClStatus::CL_PROFILING_INFO_NOT_AVAILABLE => "CL_PROFILING_INFO_NOT_AVAILABLE"@,
            ClStatus::CL_MEM_COPY_OVERLAP => "CL_MEM_COPY_OVERLAP"@,
            ClStatus::CL_IMAGE_FORMAT_MISMATCH => "CL_IMAGE_FORMAT_MISMATCH"@,
            ClStatus::CL_IMAGE_FORMAT_NOT_SUPPORTED => "CL_IMAGE_FORMAT_NOT_SUPPORTED"@,
            ClStatus::CL_BUILD_PROGRAM_FAILURE => "CL_BUILD_PROGRAM_FAILURE"@,
            ClStatus::CL_MAP_FAILURE => "CL_MAP_FAILURE"@,
            ClStatus::CL_MISALIGNED_SUB_BUFFER_OFFSET => "CL_MISALIGNED_SUB_BUFFER_OFFSET"@,
            ClStatus::CL_EXEC_STATUS_ERROR_FOR_EVENTS_IN_WAIT_LIST => "CL_EXEC_STATUS_ERROR_FOR_EVENTS_IN_WAIT_LIST"@,
            ClStatus::CL_COMPILE_PROGRAM_FAILURE => "CL_COMPILE_PROGRAM_FAILURE"@,
            ClStatus::CL_LINKER_NOT_AVAILABLE => "CL_LINKER_NOT_AVAILABLE"@,
            ClStatus::CL_LINK_PROGRAM_FAILURE => "CL_LINK_PROGRAM_FAILURE"@,
            ClStatus::CL_DEVICE_PARTITION_FAILED => "CL_DEVICE_PARTITION_FAILED"@,
            ClStatus::CL_KERNEL_ARG_INFO_NOT_AVAILABLE => "CL_KERNEL_ARG_INFO_NOT_AVAILABLE"@,
            ClStatus::CL_INVALID_VALUE => "CL_INVALID_VALUE"@,
            ClStatus::CL_INVALID_DEVICE_TYPE => "CL_INVALID_DEVICE_TYPE"@,
            ClStatus::CL_INVALID_PLATFORM => "CL_INVALID_PLATFORM"@,
            ClStatus::CL_INVALID_DEVICE => "CL_INVALID_DEVICE"@,
            ClStatus::CL_INVALID_CONTEXT => "CL_INVALID_CONTEXT"@,
            ClStatus::CL_INVALID_QUEUE_PROPERTIES => "CL_INVALID_QUEUE_PROPERTIES"@,
            ClStatus::CL_INVALID_COMMAND_QUEUE => "CL_INVALID_COMMAND_QUEUE"@,
            ClStatus::CL_INVALID_HOST_PTR => "CL_INVALID_HOST_PTR"@,
            ClStatus::CL_INVALID_MEM_OBJECT => "CL_INVALID_MEM_OBJECT"@,
            ClStatus::CL_INVALID_IMAGE_FORMAT_DESCRIPTOR => "CL_INVALID_IMAGE_FORMAT_DESCRIPTOR"@,
            ClStatus::CL_INVALID_IMAGE_SIZE => "CL_INVALID_IMAGE_SIZE"@,
            ClStatus::CL_INVALID_SAMPLER => "CL_INVALID_SAMPLER"@,
            ClStatus::CL_INVALID_BINARY => "CL_INVALID_BINARY"@,
            ClStatus::CL_INVALID_BUILD_OPTIONS => "CL_INVALID_BUILD_OPTIONS"@,
            ClStatus::CL_INVALID_PROGRAM => "CL_INVALID_PROGRAM"@,
            ClStatus::CL_INVALID_PROGRAM_EXECUTABLE => "CL_INVALID_PROGRAM_EXECUTABLE"@,
            ClStatus::CL_INVALID_KERNEL_NAME => "CL_INVALID_KERNEL_NAME"@,
            ClStatus::CL_INVALID_KERNEL_DEFINITION => "CL_INVALID_KERNEL_DEFINITION"@,
            ClStatus::CL_INVALID_KERNEL => "CL_INVALID_KERNEL"@,
            ClStatus::CL_INVALID_ARG_INDEX => "CL_INVALID_ARG_INDEX"@,
            ClStatus::CL_INVALID_ARG_VALUE => "CL_INVALID_ARG_VALUE"@,
            ClStatus::CL_INVALID_ARG_SIZE => "CL_INVALID_ARG_SIZE"@,
            ClStatus::CL_INVALID_KERNEL_ARGS => "CL_INVALID_KERNEL_ARGS"@,
            ClStatus::CL_INVALID_WORK_DIMENSION => "CL_INVALID_WORK_DIMENSION"@,
            ClStatus::CL_INVALID_WORK_GROUP_SIZE => "CL_INVALID_WORK_GROUP_SIZE"@,
            ClStatus::CL_INVALID_WORK_ITEM_SIZE => "CL_INVALID_WORK_ITEM_SIZE"@,
            ClStatus::CL_INVALID_GLOBAL_OFFSET => "CL_INVALID_GLOBAL_OFFSET"@,
            ClStatus::CL_INVALID_EVENT_WAIT_LIST => "CL_INVALID_EVENT_WAIT_LIST"@,
            ClStatus::CL_INVALID_EVENT => "CL_INVALID_EVENT"@,
            ClStatus::CL_INVALID_OPERATION => "CL_INVALID_OPERATION"@,
            ClStatus::CL_INVALID_GL_OBJECT => "CL_INVALID_GL_OBJECT"@,
            ClStatus::CL_INVALID_BUFFER_SIZE => "CL_INVALID_BUFFER_SIZE"@,
            ClStatus::CL_INVALID_MIP_LEVEL => "CL_INVALID_MIP_LEVEL"@,
            ClStatus::CL_INVALID_GLOBAL_WORK_SIZE => "CL_INVALID_GLOBAL_WORK_SIZE"@,
            ClStatus::CL_INVALID_PROPERTY => "CL_INVALID_PROPERTY"@,
            ClStatus::CL_INVALID_IMAGE_DESCRIPTOR => "CL_INVALID_IMAGE_DESCRIPTOR"@,
            ClStatus::CL_INVALID_COMPILER_OPTIONS => "CL_INVALID_COMPILER_OPTIONS"@,
            ClStatus::CL_INVALID_LINKER_OPTIONS => "CL_INVALID_LINKER_OPTIONS"@,
            ClStatus::CL_INVALID_DEVICE_PARTITION_COUNT => "CL_INVALID_DEVICE_PARTITION_COUNT"@,
            ClStatus::CL_PLATFORM_NOT_FOUND_KHR => "CL_PLATFORM_NOT_FOUND_KHR"@,
        }
    }

    /// The numeric code that OpenCL reports for this status.
    pub fn code(&self) -> (r: i32)
        ensures
            r == self.spec_code(),
    {
        match self {
            ClStatus::CL_SUCCESS => 0,
            ClStatus::CL_DEVICE_NOT_FOUND => -1,
            ClStatus::CL_DEVICE_NOT_AVAILABLE => -2,
            ClStatus::CL_COMPILER_NOT_AVAILABLE => -3,
            ClStatus::CL_MEM_OBJECT_ALLOCATION_FAILURE => -4,
            ClStatus::CL_OUT_OF_RESOURCES => -5,
            ClStatus::CL_OUT_OF_HOST_MEMORY => -6,
            ClStatus::CL_PROFILING_INFO_NOT_AVAILABLE => -7,
            ClStatus::CL_MEM_COPY_OVERLAP => -8,
            ClStatus::CL_IMAGE_FORMAT_MISMATCH => -9,
            ClStatus::CL_IMAGE_FORMAT_NOT_SUPPORTED => -10,
            ClStatus::CL_BUILD_PROGRAM_FAILURE => -11,
            ClStatus::CL_MAP_FAILURE => -12,
            ClStatus::CL_MISALIGNED_SUB_BUFFER_OFFSET => -13,
            ClStatus::CL_EXEC_STATUS_ERROR_FOR_EVENTS_IN_WAIT_LIST => -14,
            ClStatus::CL_COMPILE_PROGRAM_FAILURE => -15,
            ClStatus::CL_LINKER_NOT_AVAILABLE => -16,
            ClStatus::CL_LINK_PROGRAM_FAILURE => -17,
            ClStatus::CL_DEVICE_PARTITION_FAILED => -18,
            ClStatus::CL_KERNEL_ARG_INFO_NOT_AVAILABLE => -19,
            ClStatus::CL_INVALID_VALUE => -30,
            ClStatus::CL_INVALID_DEVICE_TYPE => -31,
            ClStatus::CL_INVALID_PLATFORM => -32,
            ClStatus::CL_INVALID_DEVICE => -33,
            ClStatus::CL_INVALID_CONTEXT => -34,
            ClStatus::CL_INVALID_QUEUE_PROPERTIES => -35,
            ClStatus::CL_INVALID_COMMAND_QUEUE => -36,
            ClStatus::CL_INVALID_HOST_PTR => -37,
            ClStatus::CL_INVALID_MEM_OBJECT => -38,
            ClStatus::CL_INVALID_IMAGE_FORMAT_DESCRIPTOR => -39,
            ClStatus::CL_INVALID_IMAGE_SIZE => -40,
            ClStatus::CL_INVALID_SAMPLER => -41,
            ClStatus::CL_INVALID_BINARY => -42,
            ClStatus::CL_INVALID_BUILD_OPTIONS => -43,
            ClStatus::CL_INVALID_PROGRAM => -44,
            ClStatus::CL_INVALID_PROGRAM_EXECUTABLE => -45,
            ClStatus::CL_INVALID_KERNEL_NAME => -46,
            ClStatus::CL_INVALID_KERNEL_DEFINITION => -47,
            ClStatus::CL_INVALID_KERNEL => -48,
            ClStatus::CL_INVALID_ARG_INDEX => -49,
            ClStatus::CL_INVALID_ARG_VALUE => -50,
            ClStatus::CL_INVALID_ARG_SIZE => -51,
            ClStatus::CL_INVALID_KERNEL_ARGS => -52,
            ClStatus::CL_INVALID_WORK_DIMENSION => -53,
            ClStatus::CL_INVALID_WORK_GROUP_SIZE => -54,
            ClStatus::CL_INVALID_WORK_ITEM_SIZE => -55,
            ClStatus::CL_INVALID_GLOBAL_OFFSET => -56,
            ClStatus::CL_INVALID_EVENT_WAIT_LIST => -57,
            ClStatus::CL_INVALID_EVENT => -58,
            ClStatus::CL_INVALID_OPERATION => -59,
            ClStatus::CL_INVALID_GL_OBJECT => -60,
            ClStatus::CL_INVALID_BUFFER_SIZE => -61,
            ClStatus::CL_INVALID_MIP_LEVEL => -62,
            ClStatus::CL_INVALID_GLOBAL_WORK_SIZE => -63,
            ClStatus::CL_INVALID_PROPERTY => -64,
            ClStatus::CL_INVALID_IMAGE_DESCRIPTOR => -65,
            ClStatus::CL_INVALID_COMPILER_OPTIONS => -66,
            ClStatus::CL_INVALID_LINKER_OPTIONS => -67,
            ClStatus::CL_INVALID_DEVICE_PARTITION_COUNT => -68,
            ClStatus::CL_PLATFORM_NOT_FOUND_KHR => -1001,
        }
    }

    /// The name of this status, as its `Debug` form prints it.
    pub fn name(&self) -> (r: &'static str)
        ensures
            r@ == self.spec_name(),
    {
        match self {
            ClStatus::CL_SUCCESS => "CL_SUCCESS",
            ClStatus::CL_DEVICE_NOT_FOUND => "CL_DEVICE_NOT_FOUND",
            ClStatus::CL_DEVICE_NOT_AVAILABLE => "CL_DEVICE_NOT_AVAILABLE",
            ClStatus::CL_COMPILER_NOT_AVAILABLE => "CL_COMPILER_NOT_AVAILABLE",
            ClStatus::CL_MEM_OBJECT_ALLOCATION_FAILURE => "CL_MEM_OBJECT_ALLOCATION_FAILURE",
            ClStatus::CL_OUT_OF_RESOURCES => "CL_OUT_OF_RESOURCES",
            ClStatus::CL_OUT_OF_HOST_MEMORY => "CL_OUT_OF_HOST_MEMORY",
            ClStatus::CL_PROFILING_INFO_NOT_AVAILABLE => "CL_PROFILING_INFO_NOT_AVAILABLE",
            ClStatus::CL_MEM_COPY_OVERLAP => "CL_MEM_COPY_OVERLAP",
            ClStatus::CL_IMAGE_FORMAT_MISMATCH => "CL_IMAGE_FORMAT_MISMATCH",
            ClStatus::CL_IMAGE_FORMAT_NOT_SUPPORTED => "CL_IMAGE_FORMAT_NOT_SUPPORTED",
            ClStatus::CL_BUILD_PROGRAM_FAILURE => "CL_BUILD_PROGRAM_FAILURE",
            ClStatus::CL_MAP_FAILURE => "CL_MAP_FAILURE",
            ClStatus::CL_MISALIGNED_SUB_BUFFER_OFFSET => "CL_MISALIGNED_SUB_BUFFER_OFFSET",
            ClStatus::CL_EXEC_STATUS_ERROR_FOR_EVENTS_IN_WAIT_LIST => "CL_EXEC_STATUS_ERROR_FOR_EVENTS_IN_WAIT_LIST",
            ClStatus::CL_COMPILE_PROGRAM_FAILURE => "CL_COMPILE_PROGRAM_FAILURE",
            ClStatus::CL_LINKER_NOT_AVAILABLE => "CL_LINKER_NOT_AVAILABLE",
            ClStatus::CL_LINK_PROGRAM_FAILURE => "CL_LINK_PROGRAM_FAILURE",
            ClStatus::CL_DEVICE_PARTITION_FAILED => "CL_DEVICE_PARTITION_FAILED",
            ClStatus::CL_KERNEL_ARG_INFO_NOT_AVAILABLE => "CL_KERNEL_ARG_INFO_NOT_AVAILABLE",
            ClStatus::CL_INVALID_VALUE => "CL_INVALID_VALUE",
            ClStatus::CL_INVALID_DEVICE_TYPE => "CL_INVALID_DEVICE_TYPE",
            ClStatus::CL_INVALID_PLATFORM => "CL_INVALID_PLATFORM",
            ClStatus::CL_INVALID_DEVICE => "CL_INVALID_DEVICE",
            ClStatus::CL_INVALID_CONTEXT => "CL_INVALID_CONTEXT",
            ClStatus::CL_INVALID_QUEUE_PROPERTIES => "CL_INVALID_QUEUE_PROPERTIES",
            ClStatus::CL_INVALID_COMMAND_QUEUE => "CL_INVALID_COMMAND_QUEUE",
            ClStatus::CL_INVALID_HOST_PTR => "CL_INVALID_HOST_PTR",
            ClStatus::CL_INVALID_MEM_OBJECT => "CL_INVALID_MEM_OBJECT",
            ClStatus::CL_INVALID_IMAGE_FORMAT_DESCRIPTOR => "CL_INVALID_IMAGE_FORMAT_DESCRIPTOR",
            ClStatus::CL_INVALID_IMAGE_SIZE => "CL_INVALID_IMAGE_SIZE",
            ClStatus::CL_INVALID_SAMPLER => "CL_INVALID_SAMPLER",
            ClStatus::CL_INVALID_BINARY => "CL_INVALID_BINARY",
            ClStatus::CL_INVALID_BUILD_OPTIONS => "CL_INVALID_BUILD_OPTIONS",
            ClStatus::CL_INVALID_PROGRAM => "CL_INVALID_PROGRAM",
            ClStatus::CL_INVALID_PROGRAM_EXECUTABLE => "CL_INVALID_PROGRAM_EXECUTABLE",
            ClStatus::CL_INVALID_KERNEL_NAME => "CL_INVALID_KERNEL_NAME",
            ClStatus::CL_INVALID_KERNEL_DEFINITION => "CL_INVALID_KERNEL_DEFINITION",
            ClStatus::CL_INVALID_KERNEL => "CL_INVALID_KERNEL",
            ClStatus::CL_INVALID_ARG_INDEX => "CL_INVALID_ARG_INDEX",
            ClStatus::CL_INVALID_ARG_VALUE => "CL_INVALID_ARG_VALUE",
            ClStatus::CL_INVALID_ARG_SIZE => "CL_INVALID_ARG_SIZE",
            ClStatus::CL_INVALID_KERNEL_ARGS => "CL_INVALID_KERNEL_ARGS",
            ClStatus::CL_INVALID_WORK_DIMENSION => "CL_INVALID_WORK_DIMENSION",
            ClStatus::CL_INVALID_WORK_GROUP_SIZE => "CL_INVALID_WORK_GROUP_SIZE",
            ClStatus::CL_INVALID_WORK_ITEM_SIZE => "CL_INVALID_WORK_ITEM_SIZE",
            ClStatus::CL_INVALID_GLOBAL_OFFSET => "CL_INVALID_GLOBAL_OFFSET",
            ClStatus::CL_INVALID_EVENT_WAIT_LIST => "CL_INVALID_EVENT_WAIT_LIST",
            ClStatus::CL_INVALID_EVENT => "CL_INVALID_EVENT",
            ClStatus::CL_INVALID_OPERATION => "CL_INVALID_OPERATION",
            ClStatus::CL_INVALID_GL_OBJECT => "CL_INVALID_GL_OBJECT",
            ClStatus::CL_INVALID_BUFFER_SIZE => "CL_INVALID_BUFFER_SIZE",
            ClStatus::CL_INVALID_MIP_LEVEL => "CL_INVALID_MIP_LEVEL",
            ClStatus::CL_INVALID_GLOBAL_WORK_SIZE => "CL_INVALID_GLOBAL_WORK_SIZE",
            ClStatus::CL_INVALID_PROPERTY => "CL_INVALID_PROPERTY",
            ClStatus::CL_INVALID_IMAGE_DESCRIPTOR => "CL_INVALID_IMAGE_DESCRIPTOR",
            ClStatus::CL_INVALID_COMPILER_OPTIONS => "CL_INVALID_COMPILER_OPTIONS",
            ClStatus::CL_INVALID_LINKER_OPTIONS => "CL_INVALID_LINKER_OPTIONS",
            ClStatus::CL_INVALID_DEVICE_PARTITION_COUNT => "CL_INVALID_DEVICE_PARTITION_COUNT",
            ClStatus::CL_PLATFORM_NOT_FOUND_KHR => "CL_PLATFORM_NOT_FOUND_KHR",
        }
    }

    /// The status whose code is `code`, if OpenCL defines one.
    pub fn from_i32(code: i32) -> (r: Option<ClStatus>)
        ensures
            r == status_of(code),
    {
        proof {
            lemma_status_of(code);
        }
        match code {
            0 => Some(ClStatus::CL_SUCCESS),
            -1 => Some(ClStatus::CL_DEVICE_NOT_FOUND),
            -2 => Some(ClStatus::CL_DEVICE_NOT_AVAILABLE),
            -3 => Some(ClStatus::CL_COMPILER_NOT_AVAILABLE),
            -4 => Some(ClStatus::CL_MEM_OBJECT_ALLOCATION_FAILURE),
            -5 => Some(ClStatus::CL_OUT_OF_RESOURCES),
            -6 => Some(ClStatus::CL_OUT_OF_HOST_MEMORY),
            -7 => Some(ClStatus::CL_PROFILING_INFO_NOT_AVAILABLE),
            -8 => Some(ClStatus::CL_MEM_COPY_OVERLAP),
            -9 => Some(ClStatus::CL_IMAGE_FORMAT_MISMATCH),
            -10 => Some(ClStatus::CL_IMAGE_FORMAT_NOT_SUPPORTED),
            -11 => Some(ClStatus::CL_BUILD_PROGRAM_FAILURE),
            -12 => Some(ClStatus::CL_MAP_FAILURE),
            -13 => Some(ClStatus::CL_MISALIGNED_SUB_BUFFER_OFFSET),
            -14 => Some(ClStatus::CL_EXEC_STATUS_ERROR_FOR_EVENTS_IN_WAIT_LIST),
            -15 => Some(ClStatus::CL_COMPILE_PROGRAM_FAILURE),
            -16 => Some(ClStatus::CL_LINKER_NOT_AVAILABLE),
            -17 => Some(ClStatus::CL_LINK_PROGRAM_FAILURE),
            -18 => Some(ClStatus::CL_DEVICE_PARTITION_FAILED),
            -19 => Some(ClStatus::CL_KERNEL_ARG_INFO_NOT_AVAILABLE),
            -30 => Some(ClStatus::CL_INVALID_VALUE),
            -31 => Some(ClStatus::CL_INVALID_DEVICE_TYPE),
            -32 => Some(ClStatus::CL_INVALID_PLATFORM),
            -33 => Some(ClStatus::CL_INVALID_DEVICE),
            -34 => Some(ClStatus::CL_INVALID_CONTEXT),
            -35 => Some(ClStatus::CL_INVALID_QUEUE_PROPERTIES),
            -36 => Some(ClStatus::CL_INVALID_COMMAND_QUEUE),
            -37 => Some(ClStatus::CL_INVALID_HOST_PTR),
            -38 => Some(ClStatus::CL_INVALID_MEM_OBJECT),
            -39 => Some(ClStatus::CL_INVALID_IMAGE_FORMAT_DESCRIPTOR),
            -40 => Some(ClStatus::CL_INVALID_IMAGE_SIZE),
            -41 => Some(ClStatus::CL_INVALID_SAMPLER),
            -42 => Some(ClStatus::CL_INVALID_BINARY),
            -43 => Some(ClStatus::CL_INVALID_BUILD_OPTIONS),
            -44 => Some(ClStatus::CL_INVALID_PROGRAM),
            -45 => Some(ClStatus::CL_INVALID_PROGRAM_EXECUTABLE),
            -46 => Some(ClStatus::CL_INVALID_KERNEL_NAME),
            -47 => Some(ClStatus::CL_INVALID_KERNEL_DEFINITION),
            -48 => Some(ClStatus::CL_INVALID_KERNEL),
            -49 => Some(ClStatus::CL_INVALID_ARG_INDEX),
            -50 => Some(ClStatus::CL_INVALID_ARG_VALUE),
            -51 => Some(ClStatus::CL_INVALID_ARG_SIZE),
            -52 => Some(ClStatus::CL_INVALID_KERNEL_ARGS),
            -53 => Some(ClStatus::CL_INVALID_WORK_DIMENSION),
            -54 => Some(ClStatus::CL_INVALID_WORK_GROUP_SIZE),
            -55 => Some(ClStatus::CL_INVALID_WORK_ITEM_SIZE),
            -56 => Some(ClStatus::CL_INVALID_GLOBAL_OFFSET),
            -57 => Some(ClStatus::CL_INVALID_EVENT_WAIT_LIST),
            -58 => Some(ClStatus::CL_INVALID_EVENT),
            -59 => Some(ClStatus::CL_INVALID_OPERATION),
            -60 => Some(ClStatus::CL_INVALID_GL_OBJECT),
            -61 => Some(ClStatus::CL_INVALID_BUFFER_SIZE),
            -62 => Some(ClStatus::CL_INVALID_MIP_LEVEL),
            -63 => Some(ClStatus::CL_INVALID_GLOBAL_WORK_SIZE),
            -64 => Some(ClStatus::CL_INVALID_PROPERTY),
            -65 => Some(ClStatus::CL_INVALID_IMAGE_DESCRIPTOR),
            -66 => Some(ClStatus::CL_INVALID_COMPILER_OPTIONS),
            -67 => Some(ClStatus::CL_INVALID_LINKER_OPTIONS),
            -68 => Some(ClStatus::CL_INVALID_DEVICE_PARTITION_COUNT),
            -1001 => Some(ClStatus::CL_PLATFORM_NOT_FOUND_KHR),
            _ => None,
        }
    }
}

/// Whether some status has the code `code`.
pub open spec fn is_status_code(code: i32) -> bool {
    exists|s: ClStatus| s.spec_code() == code
}

/// The status whose code is `code`, or `None` where no status has it.
pub open spec fn status_of(code: i32) -> Option<ClStatus> {
    if is_status_code(code) {
        Some(choose|s: ClStatus| s.spec_code() == code)
    } else {
        None
    }
}

/// Every status is found again from its code: `from_i32` undoes `code`.
pub proof fn lemma_status_round_trip(s: ClStatus)
    ensures
        status_of(s.spec_code()) == Some(s),
{
    assert(is_status_code(s.spec_code()));
    lemma_code_injective(choose|t: ClStatus| t.spec_code() == s.spec_code(), s);
}

/// Distinct statuses have distinct codes.
pub proof fn lemma_code_injective(a: ClStatus, b: ClStatus)
    ensures
        a.spec_code() == b.spec_code() ==> a == b,
{
}

proof fn lemma_status_of(code: i32)
    ensures
        match code {
            0i32 => status_of(code) == Some(ClStatus::CL_SUCCESS),
            -1i32 => status_of(code) == Some(ClStatus::CL_DEVICE_NOT_FOUND),
            -2i32 => status_of(code) == Some(ClStatus::CL_DEVICE_NOT_AVAILABLE),
            -3i32 => status_of(code) == Some(ClStatus::CL_COMPILER_NOT_AVAILABLE),
            -4i32 => status_of(code) == Some(ClStatus::CL_MEM_OBJECT_ALLOCATION_FAILURE),
            -5i32 => status_of(code) == Some(ClStatus::CL_OUT_OF_RESOURCES),
            -6i32 => status_of(code) == Some(ClStatus::CL_OUT_OF_HOST_MEMORY),
            -7i32 => status_of(code) == Some(ClStatus::CL_PROFILING_INFO_NOT_AVAILABLE),
            -8i32 => status_of(code) == Some(ClStatus::CL_MEM_COPY_OVERLAP),
            -9i32 => status_of(code) == Some(ClStatus::CL_IMAGE_FORMAT_MISMATCH),
            -10i32 => status_of(code) == Some(ClStatus::CL_IMAGE_FORMAT_NOT_SUPPORTED),
            -11i32 => status_of(code) == Some(ClStatus::CL_BUILD_PROGRAM_FAILURE),
            -12i32 => status_of(code) == Some(ClStatus::CL_MAP_FAILURE),
            -13i32 => status_of(code) == Some(ClStatus::CL_MISALIGNED_SUB_BUFFER_OFFSET),
            -14i32 => status_of(code) == Some(ClStatus::CL_EXEC_STATUS_ERROR_FOR_EVENTS_IN_WAIT_LIST),
            -15i32 => status_of(code) == Some(ClStatus::CL_COMPILE_PROGRAM_FAILURE),
            -16i32 => status_of(code) == Some(ClStatus::CL_LINKER_NOT_AVAILABLE),
            -17i32 => status_of(code) == Some(ClStatus::CL_LINK_PROGRAM_FAILURE),
            -18i32 => status_of(code) == Some(ClStatus::CL_DEVICE_PARTITION_FAILED),
            -19i32 => status_of(code) == Some(ClStatus::CL_KERNEL_ARG_INFO_NOT_AVAILABLE),
            -30i32 => status_of(code) == Some(ClStatus::CL_INVALID_VALUE),
            -31i32 => status_of(code) == Some(ClStatus::CL_INVALID_DEVICE_TYPE),
            -32i32 => status_of(code) == Some(ClStatus::CL_INVALID_PLATFORM),
            -33i32 => status_of(code) == Some(ClStatus::CL_INVALID_DEVICE),
            -34i32 => status_of(code) == Some(ClStatus::CL_INVALID_CONTEXT),
            -35i32 => status_of(code) == Some(ClStatus::CL_INVALID_QUEUE_PROPERTIES),
            -36i32 => status_of(code) == Some(ClStatus::CL_INVALID_COMMAND_QUEUE),
            -37i32 => status_of(code) == Some(ClStatus::CL_INVALID_HOST_PTR),
            -38i32 => status_of(code) == Some(ClStatus::CL_INVALID_MEM_OBJECT),
            -39i32 => status_of(code) == Some(ClStatus::CL_INVALID_IMAGE_FORMAT_DESCRIPTOR),
            -40i32 => status_of(code) == Some(ClStatus::CL_INVALID_IMAGE_SIZE),
            -41i32 => status_of(code) == Some(ClStatus::CL_INVALID_SAMPLER),
            -42i32 => status_of(code) == Some(ClStatus::CL_INVALID_BINARY),
            -43i32 => status_of(code) == Some(ClStatus::CL_INVALID_BUILD_OPTIONS),
            -44i32 => status_of(code) == Some(ClStatus::CL_INVALID_PROGRAM),
            -45i32 => status_of(code) == Some(ClStatus::CL_INVALID_PROGRAM_EXECUTABLE),
            -46i32 => status_of(code) == Some(ClStatus::CL_INVALID_KERNEL_NAME),
            -47i32 => status_of(code) == Some(ClStatus::CL_INVALID_KERNEL_DEFINITION),
            -48i32 => status_of(code) == Some(ClStatus::CL_INVALID_KERNEL),
            -49i32 => status_of(code) == Some(ClStatus::CL_INVALID_ARG_INDEX),
            -50i32 => status_of(code) == Some(ClStatus::CL_INVALID_ARG_VALUE),
            -51i32 => status_of(code) == Some(ClStatus::CL_INVALID_ARG_SIZE),
            -52i32 => status_of(code) == Some(ClStatus::CL_INVALID_KERNEL_ARGS),
            -53i32 => status_of(code) == Some(ClStatus::CL_INVALID_WORK_DIMENSION),
            -54i32 => status_of(code) == Some(ClStatus::CL_INVALID_WORK_GROUP_SIZE),
            -55i32 => status_of(code) == Some(ClStatus::CL_INVALID_WORK_ITEM_SIZE),
            -56i32 => status_of(code) == Some(ClStatus::CL_INVALID_GLOBAL_OFFSET),
            -57i32 => status_of(code) == Some(ClStatus::CL_INVALID_EVENT_WAIT_LIST),
            -58i32 => status_of(code) == Some(ClStatus::CL_INVALID_EVENT),
            -59i32 => status_of(code) == Some(ClStatus::CL_INVALID_OPERATION),
            -60i32 => status_of(code) == Some(ClStatus::CL_INVALID_GL_OBJECT),
            -61i32 => status_of(code) == Some(ClStatus::CL_INVALID_BUFFER_SIZE),
            -62i32 => status_of(code) == Some(ClStatus::CL_INVALID_MIP_LEVEL),
            -63i32 => status_of(code) == Some(ClStatus::CL_INVALID_GLOBAL_WORK_SIZE),
            -64i32 => status_of(code) == Some(ClStatus::CL_INVALID_PROPERTY),
            -65i32 => status_of(code) == Some(ClStatus::CL_INVALID_IMAGE_DESCRIPTOR),
            -66i32 => status_of(code) == Some(ClStatus::CL_INVALID_COMPILER_OPTIONS),
            -67i32 => status_of(code) == Some(ClStatus::CL_INVALID_LINKER_OPTIONS),
            -68i32 => status_of(code) == Some(ClStatus::CL_INVALID_DEVICE_PARTITION_COUNT),
            -1001i32 => status_of(code) == Some(ClStatus::CL_PLATFORM_NOT_FOUND_KHR),
            _ => status_of(code) is None,
        },
{
    match code {
        0i32 => {
            assert(ClStatus::CL_SUCCESS.spec_code() == code);
            lemma_code_injective(choose|s: ClStatus| s.spec_code() == code, ClStatus::CL_SUCCESS);
        },
        -1i32 => {
            assert(ClStatus::CL_DEVICE_NOT_FOUND.spec_code() == code);
            lemma_code_injective(choose|s: ClStatus| s.spec_code() == code, ClStatus::CL_DEVICE_NOT_FOUND);
        },
        -2i32 => {
            assert(ClStatus::CL_DEVICE_NOT_AVAILABLE.spec_code() == code);
            lemma_code_injective(choose|s: ClStatus| s.spec_code() == code, ClStatus::CL_DEVICE_NOT_AVAILABLE);
        },
        -3i32 => {
            assert(ClStatus::CL_COMPILER_NOT_AVAILABLE.spec_code() == code);
            lemma_code_injective(choose|s: ClStatus| s.spec_code() == code, ClStatus::CL_COMPILER_NOT_AVAILABLE);
        },
        -4i32 => {
            assert(ClStatus::CL_MEM_OBJECT_ALLOCATION_FAILURE.spec_code() == code);
            lemma_code_injective(choose|s: ClStatus| s.spec_code() == code, ClStatus::CL_MEM_OBJECT_ALLOCATION_FAILURE);
        },
        -5i32 => {
            assert(ClStatus::CL_OUT_OF_RESOURCES.spec_code() == code);
            lemma_code_injective(choose|s: ClStatus| s.spec_code() == code, ClStatus::CL_OUT_OF_RESOURCES);
        },
        -6i32 => {
            assert(ClStatus::CL_OUT_OF_HOST_MEMORY.spec_code() == code);
            lemma_code_injective(choose|s: ClStatus| s.spec_code() == code, ClStatus::CL_OUT_OF_HOST_MEMORY);
        },
        -7i32 => {
            assert(ClStatus::CL_PROFILING_INFO_NOT_AVAILABLE.spec_code() == code);
            lemma_code_injective(choose|s: ClStatus| s.spec_code() == code, ClStatus::CL_PROFILING_INFO_NOT_AVAILABLE);
        },
        -8i32 => {
            assert(ClStatus::CL_MEM_COPY_OVERLAP.spec_code() == code);
            lemma_code_injective(choose|s: ClStatus| s.spec_code() == code, ClStatus::CL_MEM_COPY_OVERLAP);
        },
        -9i32 => {
            assert(ClStatus::CL_IMAGE_FORMAT_MISMATCH.spec_code() == code);
            lemma_code_injective(choose|s: ClStatus| s.spec_code() == code, ClStatus::CL_IMAGE_FORMAT_MISMATCH);
        },
        -10i32 => {
            assert(ClStatus::CL_IMAGE_FORMAT_NOT_SUPPORTED.spec_code() == code);
            lemma_code_injective(choose|s: ClStatus| s.spec_code() == code, ClStatus::CL_IMAGE_FORMAT_NOT_SUPPORTED);
        },
        -11i32 => {
            assert(ClStatus::CL_BUILD_PROGRAM_FAILURE.spec_code() == code);
            lemma_code_injective(choose|s: ClStatus| s.spec_code() == code, ClStatus::CL_BUILD_PROGRAM_FAILURE);
        },
        -12i32 => {
            assert(ClStatus::CL_MAP_FAILURE.spec_code() == code);
            lemma_code_injective(choose|s: ClStatus| s.spec_code() == code, ClStatus::CL_MAP_FAILURE);
        },
        -13i32 => {
            assert(ClStatus::CL_MISALIGNED_SUB_BUFFER_OFFSET.spec_code() == code);
            lemma_code_injective(choose|s: ClStatus| s.spec_code() == code, ClStatus::CL_MISALIGNED_SUB_BUFFER_OFFSET);
        },
        -14i32 => {
            assert(ClStatus::CL_EXEC_STATUS_ERROR_FOR_EVENTS_IN_WAIT_LIST.spec_code() == code);
            lemma_code_injective(choose|s: ClStatus| s.spec_code() == code, ClStatus::CL_EXEC_STATUS_ERROR_FOR_EVENTS_IN_WAIT_LIST);
        },
        -15i32 => {
            assert(ClStatus::CL_COMPILE_PROGRAM_FAILURE.spec_code() == code);
            lemma_code_injective(choose|s: ClStatus| s.spec_code() == code, ClStatus::CL_COMPILE_PROGRAM_FAILURE);
        },
        -16i32 => {
            assert(ClStatus::CL_LINKER_NOT_AVAILABLE.spec_code() == code);
            lemma_code_injective(choose|s: ClStatus| s.spec_code() == code, ClStatus::CL_LINKER_NOT_AVAILABLE);
        },
        -17i32 => {
            assert(ClStatus::CL_LINK_PROGRAM_FAILURE.spec_code() == code);
            lemma_code_injective(choose|s: ClStatus| s.spec_code() == code, ClStatus::CL_LINK_PROGRAM_FAILURE);
        },
        -18i32 => {
            assert(ClStatus::CL_DEVICE_PARTITION_FAILED.spec_code() == code);
            lemma_code_injective(choose|s: ClStatus| s.spec_code() == code, ClStatus::CL_DEVICE_PARTITION_FAILED);
        },
        -19i32 => {
            assert(ClStatus::CL_KERNEL_ARG_INFO_NOT_AVAILABLE.spec_code() == code);
            lemma_code_injective(choose|s: ClStatus| s.spec_code() == code, ClStatus::CL_KERNEL_ARG_INFO_NOT_AVAILABLE);
        },
        -30i32 => {
            assert(ClStatus::CL_INVALID_VALUE.spec_code() == code);
            lemma_code_injective(choose|s: ClStatus| s.spec_code() == code, ClStatus::CL_INVALID_VALUE);
        },
        -31i32 => {
            assert(ClStatus::CL_INVALID_DEVICE_TYPE.spec_code() == code);
            lemma_code_injective(choose|s: ClStatus| s.spec_code() == code, ClStatus::CL_INVALID_DEVICE_TYPE);
        },
        -32i32 => {
            assert(ClStatus::CL_INVALID_PLATFORM.spec_code() == code);
            lemma_code_injective(choose|s: ClStatus| s.spec_code() == code, ClStatus::CL_INVALID_PLATFORM);
        },
        -33i32 => {
            assert(ClStatus::CL_INVALID_DEVICE.spec_code() == code);
            lemma_code_injective(choose|s: ClStatus| s.spec_code() == code, ClStatus::CL_INVALID_DEVICE);
        },
        -34i32 => {
            assert(ClStatus::CL_INVALID_CONTEXT.spec_code() == code);
            lemma_code_injective(choose|s: ClStatus| s.spec_code() == code, ClStatus::CL_INVALID_CONTEXT);
        },
        -35i32 => {
            assert(ClStatus::CL_INVALID_QUEUE_PROPERTIES.spec_code() == code);
            lemma_code_injective(choose|s: ClStatus| s.spec_code() == code, ClStatus::CL_INVALID_QUEUE_PROPERTIES);
        },
        -36i32 => {
            assert(ClStatus::CL_INVALID_COMMAND_QUEUE.spec_code() == code);
            lemma_code_injective(choose|s: ClStatus| s.spec_code() == code, ClStatus::CL_INVALID_COMMAND_QUEUE);
        },
        -37i32 => {
            assert(ClStatus::CL_INVALID_HOST_PTR.spec_code() == code);
            lemma_code_injective(choose|s: ClStatus| s.spec_code() == code, ClStatus::CL_INVALID_HOST_PTR);
        },
        -38i32 => {
            assert(ClStatus::CL_INVALID_MEM_OBJECT.spec_code() == code);
            lemma_code_injective(choose|s: ClStatus| s.spec_code() == code, ClStatus::CL_INVALID_MEM_OBJECT);
        },
        -39i32 => {
            assert(ClStatus::CL_INVALID_IMAGE_FORMAT_DESCRIPTOR.spec_code() == code);
            lemma_code_injective(choose|s: ClStatus| s.spec_code() == code, ClStatus::CL_INVALID_IMAGE_FORMAT_DESCRIPTOR);
        },
        -40i32 => {
            assert(ClStatus::CL_INVALID_IMAGE_SIZE.spec_code() == code);
            lemma_code_injective(choose|s: ClStatus| s.spec_code() == code, ClStatus::CL_INVALID_IMAGE_SIZE);
        },
        -41i32 => {
            assert(ClStatus::CL_INVALID_SAMPLER.spec_code() == code);
            lemma_code_injective(choose|s: ClStatus| s.spec_code() == code, ClStatus::CL_INVALID_SAMPLER);
        },
        -42i32 => {
            assert(ClStatus::CL_INVALID_BINARY.spec_code() == code);
            lemma_code_injective(choose|s: ClStatus| s.spec_code() == code, ClStatus::CL_INVALID_BINARY);
        },
        -43i32 => {
            assert(ClStatus::CL_INVALID_BUILD_OPTIONS.spec_code() == code);
            lemma_code_injective(choose|s: ClStatus| s.spec_code() == code, ClStatus::CL_INVALID_BUILD_OPTIONS);
        },
        -44i32 => {
            assert(ClStatus::CL_INVALID_PROGRAM.spec_code() == code);
            lemma_code_injective(choose|s: ClStatus| s.spec_code() == code, ClStatus::CL_INVALID_PROGRAM);
        },
        -45i32 => {
            assert(ClStatus::CL_INVALID_PROGRAM_EXECUTABLE.spec_code() == code);
            lemma_code_injective(choose|s: ClStatus| s.spec_code() == code, ClStatus::CL_INVALID_PROGRAM_EXECUTABLE);
        },
        -46i32 => {
            assert(ClStatus::CL_INVALID_KERNEL_NAME.spec_code() == code);
            lemma_code_injective(choose|s: ClStatus| s.spec_code() == code, ClStatus::CL_INVALID_KERNEL_NAME);
        },
        -47i32 => {
            assert(ClStatus::CL_INVALID_KERNEL_DEFINITION.spec_code() == code);
            lemma_code_injective(choose|s: ClStatus| s.spec_code() == code, ClStatus::CL_INVALID_KERNEL_DEFINITION);
        },
        -48i32 => {
            assert(ClStatus::CL_INVALID_KERNEL.spec_code() == code);
            lemma_code_injective(choose|s: ClStatus| s.spec_code() == code, ClStatus::CL_INVALID_KERNEL);
        },
        -49i32 => {
            assert(ClStatus::CL_INVALID_ARG_INDEX.spec_code() == code);
            lemma_code_injective(choose|s: ClStatus| s.spec_code() == code, ClStatus::CL_INVALID_ARG_INDEX);
        },
        -50i32 => {
            assert(ClStatus::CL_INVALID_ARG_VALUE.spec_code() == code);
            lemma_code_injective(choose|s: ClStatus| s.spec_code() == code, ClStatus::CL_INVALID_ARG_VALUE);
        },
        -51i32 => {
            assert(ClStatus::CL_INVALID_ARG_SIZE.spec_code() == code);
            lemma_code_injective(choose|s: ClStatus| s.spec_code() == code, ClStatus::CL_INVALID_ARG_SIZE);
        },
        -52i32 => {
            assert(ClStatus::CL_INVALID_KERNEL_ARGS.spec_code() == code);
            lemma_code_injective(choose|s: ClStatus| s.spec_code() == code, ClStatus::CL_INVALID_KERNEL_ARGS);
        },
        -53i32 => {
            assert(ClStatus::CL_INVALID_WORK_DIMENSION.spec_code() == code);
            lemma_code_injective(choose|s: ClStatus| s.spec_code() == code, ClStatus::CL_INVALID_WORK_DIMENSION);
        },
        -54i32 => {
            assert(ClStatus::CL_INVALID_WORK_GROUP_SIZE.spec_code() == code);
            lemma_code_injective(choose|s: ClStatus| s.spec_code() == code, ClStatus::CL_INVALID_WORK_GROUP_SIZE);
        },
        -55i32 => {
            assert(ClStatus::CL_INVALID_WORK_ITEM_SIZE.spec_code() == code);
            lemma_code_injective(choose|s: ClStatus| s.spec_code() == code, ClStatus::CL_INVALID_WORK_ITEM_SIZE);
        },
        -56i32 => {
            assert(ClStatus::CL_INVALID_GLOBAL_OFFSET.spec_code() == code);
            lemma_code_injective(choose|s: ClStatus| s.spec_code() == code, ClStatus::CL_INVALID_GLOBAL_OFFSET);
        },
        -57i32 => {
            assert(ClStatus::CL_INVALID_EVENT_WAIT_LIST.spec_code() == code);
            lemma_code_injective(choose|s: ClStatus| s.spec_code() == code, ClStatus::CL_INVALID_EVENT_WAIT_LIST);
        },
        -58i32 => {
            assert(ClStatus::CL_INVALID_EVENT.spec_code() == code);
            lemma_code_injective(choose|s: ClStatus| s.spec_code() == code, ClStatus::CL_INVALID_EVENT);
        },
        -59i32 => {
            assert(ClStatus::CL_INVALID_OPERATION.spec_code() == code);
            lemma_code_injective(choose|s: ClStatus| s.spec_code() == code, ClStatus::CL_INVALID_OPERATION);
        },
        -60i32 => {
            assert(ClStatus::CL_INVALID_GL_OBJECT.spec_code() == code);
            lemma_code_injective(choose|s: ClStatus| s.spec_code() == code, ClStatus::CL_INVALID_GL_OBJECT);
        },
        -61i32 => {
            assert(ClStatus::CL_INVALID_BUFFER_SIZE.spec_code() == code);
            lemma_code_injective(choose|s: ClStatus| s.spec_code() == code, ClStatus::CL_INVALID_BUFFER_SIZE);
        },
        -62i32 => {
            assert(ClStatus::CL_INVALID_MIP_LEVEL.spec_code() == code);
            lemma_code_injective(choose|s: ClStatus| s.spec_code() == code, ClStatus::CL_INVALID_MIP_LEVEL);
        },
        -63i32 => {
            assert(ClStatus::CL_INVALID_GLOBAL_WORK_SIZE.spec_code() == code);
            lemma_code_injective(choose|s: ClStatus| s.spec_code() == code, ClStatus::CL_INVALID_GLOBAL_WORK_SIZE);
        },
        -64i32 => {
            assert(ClStatus::CL_INVALID_PROPERTY.spec_code() == code);
            lemma_code_injective(choose|s: ClStatus| s.spec_code() == code, ClStatus::CL_INVALID_PROPERTY);
        },
        -65i32 => {
            assert(ClStatus::CL_INVALID_IMAGE_DESCRIPTOR.spec_code() == code);
            lemma_code_injective(choose|s: ClStatus| s.spec_code() == code, ClStatus::CL_INVALID_IMAGE_DESCRIPTOR);
        },
        -66i32 => {
            assert(ClStatus::CL_INVALID_COMPILER_OPTIONS.spec_code() == code);
            lemma_code_injective(choose|s: ClStatus| s.spec_code() == code, ClStatus::CL_INVALID_COMPILER_OPTIONS);
        },
        -67i32 => {
            assert(ClStatus::CL_INVALID_LINKER_OPTIONS.spec_code() == code);
            lemma_code_injective(choose|s: ClStatus| s.spec_code() == code, ClStatus::CL_INVALID_LINKER_OPTIONS);
        },
        -68i32 => {
            assert(ClStatus::CL_INVALID_DEVICE_PARTITION_COUNT.spec_code() == code);
            lemma_code_injective(choose|s: ClStatus| s.spec_code() == code, ClStatus::CL_INVALID_DEVICE_PARTITION_COUNT);
        },
        -1001i32 => {
            assert(ClStatus::CL_PLATFORM_NOT_FOUND_KHR.spec_code() == code);
            lemma_code_injective(choose|s: ClStatus| s.spec_code() == code, ClStatus::CL_PLATFORM_NOT_FOUND_KHR);
        },
        _ => {
            assert forall|s: ClStatus| s.spec_code() != code by {
                lemma_code_injective(s, s);
            }
        },
    }
}

} // verus!
