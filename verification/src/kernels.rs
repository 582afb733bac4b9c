//! The built-in kernels: their names and what each asks of its parameters.
use vstd::prelude::*;

verus! {

/// A built-in kernel.
#[derive(Debug, Clone, Copy, PartialEq, Eq, Structural)]
pub enum Kernel {
    Box3x3,
    Median3x3,
    Gaussian3x3,
    Gaussian5x5,
    Dilate3x3,
    Erode3x3,
    ColorConvert,
    WarpPerspective,
    Threshold,
    IntegralImage,
    Add,
    Subtract,
    Min,
    Max,
    Copy,
    NonMaxSuppression,
    HoughLinesP,
    MatchTemplate,
    Lbp,
    HogCells,
    HogFeatures,
    BilateralFilter,
    Multiply,
    AbsDiff,
    Magnitude,
    Phase,
    ScaleImage,
    Sobel3x3,
    WarpAffine,
    Remap,
    And,
    Or,
    Xor,
    Not,
    WeightedAverage,
    ChannelExtract,
    ChannelCombine,
    Convolve,
    Histogram,
    HarrisCorners,
    FastCorners,
    CannyEdgeDetector,
    TableLookup,
    ConvertDepth,
    EqualizeHistogram,
    MeanStdDev,
    MinMaxLoc,
    GaussianPyramid,
    HalfScaleGaussian,
    LaplacianPyramid,
    LaplacianReconstruct,
    OpticalFlowPyrLK,
    NonLinearFilter,
    TensorAdd,
    TensorSubtract,
    TensorMultiply,
    TensorConvertDepth,
    TensorTableLookup,
    TensorTranspose,
    TensorMatrixMultiply,
    ScalarOperation,
    Select,
}

/// How one argument of a kernel routine comes from the node's parameters.
/// The first number is always the index of the parameter.
#[derive(Debug, Clone, Copy, PartialEq, Eq, Structural)]
pub enum ArgRule {
    /// The parameter itself, null where the node has none.
    Ref(usize),
    /// No reference at all.
    Null,
    /// The integer a scalar holds, or the number given.
    Enum(usize, i32),
    /// A number over whose low bytes the scalar is copied; the second number
    /// stands in where there is no scalar.
    Word(usize, i32, i32),
    /// The four-byte integer a scalar must hold.
    NeedInt(usize),
    /// The four raw bytes a scalar must hold.
    NeedBits(usize),
    /// The size a scalar must hold in four or eight bytes; the number given
    /// stands in where there is no scalar.
    NeedSize(usize, u64),
    /// Four raw bytes over which the scalar is copied.
    Bits(usize, u32),
    /// Whether the integer a scalar holds differs from zero.
    Flag(usize),
    /// Eight raw bytes over which the scalar is copied.
    Wide(usize, u64),
    /// As [`ArgRule::Enum`], widened to a size.
    SizeEnum(usize, i32),
    /// As [`ArgRule::Word`], widened to a size.
    SizeWord(usize, i32, i32),
    /// As [`ArgRule::Bits`], widened to a size.
    SizeBits(usize, u32),
}

/// Which form of the border a kernel routine is handed.
#[derive(Debug, Clone, Copy, PartialEq, Eq, Structural)]
pub enum BorderRule {
    Unused,
    AsGiven,
    Converted,
}

/// No kernel looks at more parameters, or takes more arguments, than this.
pub const MAX_PARAMETERS: usize = 10;

/// The registered name of a kernel.
pub open spec fn name_of(kernel: Kernel) -> Seq<char> {
    match kernel {
        Kernel::Box3x3 => "org.khronos.openvx.box_3x3"@,
        Kernel::Median3x3 => "org.khronos.openvx.median_3x3"@,
        Kernel::Gaussian3x3 => "org.khronos.openvx.gaussian_3x3"@,
        Kernel::Gaussian5x5 => "org.khronos.openvx.gaussian_5x5"@,
        Kernel::Dilate3x3 => "org.khronos.openvx.dilate_3x3"@,
        Kernel::Erode3x3 => "org.khronos.openvx.erode_3x3"@,
        Kernel::ColorConvert => "org.khronos.openvx.color_convert"@,
        Kernel::WarpPerspective => "org.khronos.openvx.warp_perspective"@,
        Kernel::Threshold => "org.khronos.openvx.threshold"@,
        Kernel::IntegralImage => "org.khronos.openvx.integral_image"@,
        Kernel::Add => "org.khronos.openvx.add"@,
        Kernel::Subtract => "org.khronos.openvx.subtract"@,
        Kernel::Min => "org.khronos.openvx.min"@,
        Kernel::Max => "org.khronos.openvx.max"@,
        Kernel::Copy => "org.khronos.openvx.copy"@,
        Kernel::NonMaxSuppression => "org.khronos.openvx.non_max_suppression"@,
        Kernel::HoughLinesP => "org.khronos.openvx.hough_lines_p"@,
        Kernel::MatchTemplate => "org.khronos.openvx.match_template"@,
        Kernel::Lbp => "org.khronos.openvx.lbp"@,
        Kernel::HogCells => "org.khronos.openvx.hog_cells"@,
        Kernel::HogFeatures => "org.khronos.openvx.hog_features"@,
        Kernel::BilateralFilter => "org.khronos.openvx.bilateral_filter"@,
        Kernel::Multiply => "org.khronos.openvx.multiply"@,
        Kernel::AbsDiff => "org.khronos.openvx.absdiff"@,
        Kernel::Magnitude => "org.khronos.openvx.magnitude"@,
        Kernel::Phase => "org.khronos.openvx.phase"@,
        Kernel::ScaleImage => "org.khronos.openvx.scale_image"@,
        Kernel::Sobel3x3 => "org.khronos.openvx.sobel_3x3"@,
        Kernel::WarpAffine => "org.khronos.openvx.warp_affine"@,
        Kernel::Remap => "org.khronos.openvx.remap"@,
        Kernel::And => "org.khronos.openvx.and"@,
        Kernel::Or => "org.khronos.openvx.or"@,
        Kernel::Xor => "org.khronos.openvx.xor"@,
        Kernel::Not => "org.khronos.openvx.not"@,
        Kernel::WeightedAverage => "org.khronos.openvx.weighted_average"@,
        Kernel::ChannelExtract => "org.khronos.openvx.channel_extract"@,
        Kernel::ChannelCombine => "org.khronos.openvx.channel_combine"@,
        Kernel::Convolve => "org.khronos.openvx.convolve"@,
        Kernel::Histogram => "org.khronos.openvx.histogram"@,
        Kernel::HarrisCorners => "org.khronos.openvx.harris_corners"@,
        Kernel::FastCorners => "org.khronos.openvx.fast_corners"@,
        Kernel::CannyEdgeDetector => "org.khronos.openvx.canny_edge_detector"@,
        Kernel::TableLookup => "org.khronos.openvx.table_lookup"@,
        Kernel::ConvertDepth => "org.khronos.openvx.convertdepth"@,
        Kernel::EqualizeHistogram => "org.khronos.openvx.equalize_histogram"@,
        Kernel::MeanStdDev => "org.khronos.openvx.mean_stddev"@,
        Kernel::MinMaxLoc => "org.khronos.openvx.minmaxloc"@,
        Kernel::GaussianPyramid => "org.khronos.openvx.gaussian_pyramid"@,
        Kernel::HalfScaleGaussian => "org.khronos.openvx.halfscale_gaussian"@,
        Kernel::LaplacianPyramid => "org.khronos.openvx.laplacian_pyramid"@,
        Kernel::LaplacianReconstruct => "org.khronos.openvx.laplacian_reconstruct"@,
        Kernel::OpticalFlowPyrLK => "org.khronos.openvx.optical_flow_pyr_lk"@,
        Kernel::NonLinearFilter => "org.khronos.openvx.non_linear_filter"@,
        Kernel::TensorAdd => "org.khronos.openvx.tensor_add"@,
        Kernel::TensorSubtract => "org.khronos.openvx.tensor_subtract"@,
        Kernel::TensorMultiply => "org.khronos.openvx.tensor_multiply"@,
        Kernel::TensorConvertDepth => "org.khronos.openvx.tensor_convert_depth"@,
        Kernel::TensorTableLookup => "org.khronos.openvx.tensor_table_lookup"@,
        Kernel::TensorTranspose => "org.khronos.openvx.tensor_transpose"@,
        Kernel::TensorMatrixMultiply => "org.khronos.openvx.tensor_matrix_multiply"@,
        Kernel::ScalarOperation => "org.khronos.openvx.scalar_operation"@,
        Kernel::Select => "org.khronos.openvx.select"@,
    }
}

/// The kernel registered under a name.
pub open spec fn kernel_named(name: Seq<char>) -> Option<Kernel> {
    if name == "org.khronos.openvx.box_3x3"@ {
        Some(Kernel::Box3x3)
    } else if name == "org.khronos.openvx.median_3x3"@ {
        Some(Kernel::Median3x3)
    } else if name == "org.khronos.openvx.gaussian_3x3"@ {
        Some(Kernel::Gaussian3x3)
    } else if name == "org.khronos.openvx.gaussian_5x5"@ {
        Some(Kernel::Gaussian5x5)
    } else if name == "org.khronos.openvx.dilate_3x3"@ {
        Some(Kernel::Dilate3x3)
    } else if name == "org.khronos.openvx.erode_3x3"@ {
        Some(Kernel::Erode3x3)
    } else if name == "org.khronos.openvx.color_convert"@ {
        Some(Kernel::ColorConvert)
    } else if name == "org.khronos.openvx.warp_perspective"@ {
        Some(Kernel::WarpPerspective)
    } else if name == "org.khronos.openvx.threshold"@ {
        Some(Kernel::Threshold)
    } else if name == "org.khronos.openvx.integral_image"@ {
        Some(Kernel::IntegralImage)
    } else if name == "org.khronos.openvx.add"@ {
        Some(Kernel::Add)
    } else if name == "org.khronos.openvx.subtract"@ {
        Some(Kernel::Subtract)
    } else if name == "org.khronos.openvx.min"@ {
        Some(Kernel::Min)
    } else if name == "org.khronos.openvx.max"@ {
        Some(Kernel::Max)
    } else if name == "org.khronos.openvx.copy"@ {
        Some(Kernel::Copy)
    } else if name == "org.khronos.openvx.non_max_suppression"@ {
        Some(Kernel::NonMaxSuppression)
    } else if name == "org.khronos.openvx.hough_lines_p"@ {
        Some(Kernel::HoughLinesP)
    } else if name == "org.khronos.openvx.match_template"@ {
        Some(Kernel::MatchTemplate)
    } else if name == "org.khronos.openvx.lbp"@ {
        Some(Kernel::Lbp)
    } else if name == "org.khronos.openvx.hog_cells"@ {
        Some(Kernel::HogCells)
    } else if name == "org.khronos.openvx.hog_features"@ {
        Some(Kernel::HogFeatures)
    } else if name == "org.khronos.openvx.bilateral_filter"@ {
        Some(Kernel::BilateralFilter)
    } else if name == "org.khronos.openvx.multiply"@ {
        Some(Kernel::Multiply)
    } else if name == "org.khronos.openvx.absdiff"@ {
        Some(Kernel::AbsDiff)
    } else if name == "org.khronos.openvx.magnitude"@ {
        Some(Kernel::Magnitude)
    } else if name == "org.khronos.openvx.phase"@ {
        Some(Kernel::Phase)
    } else if name == "org.khronos.openvx.scale_image"@ {
        Some(Kernel::ScaleImage)
    } else if name == "org.khronos.openvx.sobel_3x3"@ {
        Some(Kernel::Sobel3x3)
    } else if name == "org.khronos.openvx.warp_affine"@ {
        Some(Kernel::WarpAffine)
    } else if name == "org.khronos.openvx.remap"@ {
        Some(Kernel::Remap)
    } else if name == "org.khronos.openvx.and"@ {
        Some(Kernel::And)
    } else if name == "org.khronos.openvx.or"@ {
        Some(Kernel::Or)
    } else if name == "org.khronos.openvx.xor"@ {
        Some(Kernel::Xor)
    } else if name == "org.khronos.openvx.not"@ {
        Some(Kernel::Not)
    } else if name == "org.khronos.openvx.weighted_average"@ {
        Some(Kernel::WeightedAverage)
    } else if name == "org.khronos.openvx.channel_extract"@ {
        Some(Kernel::ChannelExtract)
    } else if name == "org.khronos.openvx.channel_combine"@ {
        Some(Kernel::ChannelCombine)
    } else if name == "org.khronos.openvx.convolve"@ {
        Some(Kernel::Convolve)
    } else if name == "org.khronos.openvx.histogram"@ {
        Some(Kernel::Histogram)
    } else if name == "org.khronos.openvx.harris_corners"@ {
        Some(Kernel::HarrisCorners)
    } else if name == "org.khronos.openvx.fast_corners"@ {
        Some(Kernel::FastCorners)
    } else if name == "org.khronos.openvx.canny_edge_detector"@ {
        Some(Kernel::CannyEdgeDetector)
    } else if name == "org.khronos.openvx.table_lookup"@ {
        Some(Kernel::TableLookup)
    } else if name == "org.khronos.openvx.convertdepth"@ {
        Some(Kernel::ConvertDepth)
    } else if name == "org.khronos.openvx.equalize_histogram"@ {
        Some(Kernel::EqualizeHistogram)
    } else if name == "org.khronos.openvx.mean_stddev"@ {
        Some(Kernel::MeanStdDev)
    } else if name == "org.khronos.openvx.minmaxloc"@ {
        Some(Kernel::MinMaxLoc)
    } else if name == "org.khronos.openvx.gaussian_pyramid"@ {
        Some(Kernel::GaussianPyramid)
    } else if name == "org.khronos.openvx.halfscale_gaussian"@ {
        Some(Kernel::HalfScaleGaussian)
    } else if name == "org.khronos.openvx.laplacian_pyramid"@ {
        Some(Kernel::LaplacianPyramid)
    } else if name == "org.khronos.openvx.laplacian_reconstruct"@ {
        Some(Kernel::LaplacianReconstruct)
    } else if name == "org.khronos.openvx.optical_flow_pyr_lk"@ {
        Some(Kernel::OpticalFlowPyrLK)
    } else if name == "org.khronos.openvx.non_linear_filter"@ {
        Some(Kernel::NonLinearFilter)
    } else if name == "org.khronos.openvx.tensor_add"@ {
        Some(Kernel::TensorAdd)
    } else if name == "org.khronos.openvx.tensor_subtract"@ {
        Some(Kernel::TensorSubtract)
    } else if name == "org.khronos.openvx.tensor_multiply"@ {
        Some(Kernel::TensorMultiply)
    } else if name == "org.khronos.openvx.tensor_convert_depth"@ {
        Some(Kernel::TensorConvertDepth)
    } else if name == "org.khronos.openvx.tensor_table_lookup"@ {
        Some(Kernel::TensorTableLookup)
    } else if name == "org.khronos.openvx.tensor_transpose"@ {
        Some(Kernel::TensorTranspose)
    } else if name == "org.khronos.openvx.tensor_matrix_multiply"@ {
        Some(Kernel::TensorMatrixMultiply)
    } else if name == "org.khronos.openvx.scalar_operation"@ {
        Some(Kernel::ScalarOperation)
    } else if name == "org.khronos.openvx.select"@ {
        Some(Kernel::Select)
    } else {
        None
    }
}

/// The fewest parameters a kernel runs with.
pub open spec fn fewest(kernel: Kernel) -> usize {
    match kernel {
        Kernel::Box3x3 | Kernel::Median3x3 | Kernel::Gaussian3x3 | Kernel::Gaussian5x5
        | Kernel::Dilate3x3 | Kernel::Erode3x3 | Kernel::ColorConvert | Kernel::IntegralImage
        | Kernel::Copy | Kernel::Not | Kernel::Histogram | Kernel::EqualizeHistogram
        | Kernel::GaussianPyramid => 2,
        Kernel::WarpPerspective | Kernel::Add | Kernel::Subtract | Kernel::NonMaxSuppression
        | Kernel::MatchTemplate | Kernel::Lbp | Kernel::WarpAffine | Kernel::Remap
        | Kernel::WeightedAverage | Kernel::ChannelCombine | Kernel::ConvertDepth
        | Kernel::NonLinearFilter | Kernel::TensorAdd | Kernel::TensorSubtract
        | Kernel::TensorTranspose | Kernel::ScalarOperation | Kernel::Select => 4,
        Kernel::HoughLinesP | Kernel::HarrisCorners => 7,
        Kernel::HogCells | Kernel::HogFeatures | Kernel::Multiply | Kernel::TensorMultiply => 6,
        Kernel::BilateralFilter | Kernel::FastCorners | Kernel::CannyEdgeDetector
        | Kernel::OpticalFlowPyrLK | Kernel::TensorConvertDepth | Kernel::TensorMatrixMultiply => 5,
        Kernel::MinMaxLoc => 1,
        _ => 3,
    }
}

/// The fewest parameters a kernel runs with.
pub fn min_parameters(kernel: Kernel) -> (r: usize)
    ensures
        r == fewest(kernel),
{
    match kernel {
        Kernel::Box3x3 | Kernel::Median3x3 | Kernel::Gaussian3x3 | Kernel::Gaussian5x5
        | Kernel::Dilate3x3 | Kernel::Erode3x3 | Kernel::ColorConvert | Kernel::IntegralImage
        | Kernel::Copy | Kernel::Not | Kernel::Histogram | Kernel::EqualizeHistogram
        | Kernel::GaussianPyramid => 2,
        Kernel::WarpPerspective | Kernel::Add | Kernel::Subtract | Kernel::NonMaxSuppression
        | Kernel::MatchTemplate | Kernel::Lbp | Kernel::WarpAffine | Kernel::Remap
        | Kernel::WeightedAverage | Kernel::ChannelCombine | Kernel::ConvertDepth
        | Kernel::NonLinearFilter | Kernel::TensorAdd | Kernel::TensorSubtract
        | Kernel::TensorTranspose | Kernel::ScalarOperation | Kernel::Select => 4,
        Kernel::HoughLinesP | Kernel::HarrisCorners => 7,
        Kernel::HogCells | Kernel::HogFeatures | Kernel::Multiply | Kernel::TensorMultiply => 6,
        Kernel::BilateralFilter | Kernel::FastCorners | Kernel::CannyEdgeDetector
        | Kernel::OpticalFlowPyrLK | Kernel::TensorConvertDepth | Kernel::TensorMatrixMultiply => 5,
        Kernel::MinMaxLoc => 1,
        _ => 3,
    }
}

/// Whether a parameter is looked at as an image before anything else.
pub open spec fn checked_image(kernel: Kernel, index: usize) -> bool {
    match kernel {
        Kernel::Box3x3 | Kernel::Median3x3 | Kernel::Gaussian3x3 | Kernel::Gaussian5x5
        | Kernel::Dilate3x3 | Kernel::Erode3x3 | Kernel::ColorConvert => index == 0 || index == 1,
        Kernel::WarpPerspective => index == 0 || index == 3,
        Kernel::Threshold => index == 0 || index == 2,
        _ => false,
    }
}

/// Whether a parameter is looked at as an image before anything else.
pub fn is_checked_image(kernel: Kernel, index: usize) -> (r: bool)
    ensures
        r == checked_image(kernel, index),
{
    match kernel {
        Kernel::Box3x3 | Kernel::Median3x3 | Kernel::Gaussian3x3 | Kernel::Gaussian5x5
        | Kernel::Dilate3x3 | Kernel::Erode3x3 | Kernel::ColorConvert => index == 0 || index == 1,
        Kernel::WarpPerspective => index == 0 || index == 3,
        Kernel::Threshold => index == 0 || index == 2,
        _ => false,
    }
}

/// Whether a parameter must not be null.  Combining channels takes four planes
/// and an output, or three planes and an output.
pub open spec fn required(kernel: Kernel, count: usize, index: usize) -> bool {
    match kernel {
        Kernel::Box3x3 | Kernel::Median3x3 | Kernel::Gaussian3x3 | Kernel::Gaussian5x5
        | Kernel::Dilate3x3 | Kernel::Erode3x3 | Kernel::ColorConvert | Kernel::IntegralImage
        | Kernel::Copy | Kernel::Not | Kernel::Histogram | Kernel::ConvertDepth
        | Kernel::EqualizeHistogram | Kernel::GaussianPyramid | Kernel::HalfScaleGaussian => index == 0 || index == 1,
        Kernel::WarpPerspective | Kernel::Add | Kernel::Subtract | Kernel::MatchTemplate
        | Kernel::WarpAffine | Kernel::Remap | Kernel::TensorAdd | Kernel::TensorSubtract => index == 0 || index == 1 || index == 3,
        Kernel::NonMaxSuppression | Kernel::Lbp | Kernel::FastCorners | Kernel::TensorTranspose => index == 0 || index == 3,
        Kernel::HoughLinesP => index == 0 || index == 6,
        Kernel::HogCells => index == 0 || index == 4 || index == 5,
        Kernel::HogFeatures => index == 0 || index == 1 || index == 2 || index == 3 || index == 5,
        Kernel::BilateralFilter => index == 0 || index == 4,
        Kernel::Multiply | Kernel::TensorMultiply => index == 0 || index == 1 || index == 2 || index == 5,
        Kernel::ScaleImage | Kernel::ChannelExtract => index == 0 || index == 2,
        Kernel::Sobel3x3 | Kernel::HarrisCorners | Kernel::MeanStdDev | Kernel::MinMaxLoc => index == 0,
        Kernel::WeightedAverage | Kernel::ScalarOperation | Kernel::Select => index == 0 || index == 1 || index == 2 || index == 3,
        Kernel::CannyEdgeDetector | Kernel::TensorMatrixMultiply => index == 0 || index == 1 || index == 4,
        Kernel::OpticalFlowPyrLK => index == 0 || index == 1 || index == 2 || index == 4,
        Kernel::NonLinearFilter => index == 1 || index == 2 || index == 3,
        Kernel::TensorConvertDepth => index == 0 || index == 2 || index == 3 || index == 4,
        Kernel::ChannelCombine => index == 0 || if count >= 5 {
            index == 4
        } else {
            index == 3
        },
        _ => index == 0 || index == 1 || index == 2,
    }
}

/// Whether a parameter must not be null.  Combining channels takes four planes
/// and an output, or three planes and an output.
pub fn is_required(kernel: Kernel, count: usize, index: usize) -> (r: bool)
    ensures
        r == required(kernel, count, index),
{
    match kernel {
        Kernel::Box3x3 | Kernel::Median3x3 | Kernel::Gaussian3x3 | Kernel::Gaussian5x5
        | Kernel::Dilate3x3 | Kernel::Erode3x3 | Kernel::ColorConvert | Kernel::IntegralImage
        | Kernel::Copy | Kernel::Not | Kernel::Histogram | Kernel::ConvertDepth
        | Kernel::EqualizeHistogram | Kernel::GaussianPyramid | Kernel::HalfScaleGaussian => index == 0 || index == 1,
        Kernel::WarpPerspective | Kernel::Add | Kernel::Subtract | Kernel::MatchTemplate
        | Kernel::WarpAffine | Kernel::Remap | Kernel::TensorAdd | Kernel::TensorSubtract => index == 0 || index == 1 || index == 3,
        Kernel::NonMaxSuppression | Kernel::Lbp | Kernel::FastCorners | Kernel::TensorTranspose => index == 0 || index == 3,
        Kernel::HoughLinesP => index == 0 || index == 6,
        Kernel::HogCells => index == 0 || index == 4 || index == 5,
        Kernel::HogFeatures => index == 0 || index == 1 || index == 2 || index == 3 || index == 5,
        Kernel::BilateralFilter => index == 0 || index == 4,
        Kernel::Multiply | Kernel::TensorMultiply => index == 0 || index == 1 || index == 2 || index == 5,
        Kernel::ScaleImage | Kernel::ChannelExtract => index == 0 || index == 2,
        Kernel::Sobel3x3 | Kernel::HarrisCorners | Kernel::MeanStdDev | Kernel::MinMaxLoc => index == 0,
        Kernel::WeightedAverage | Kernel::ScalarOperation | Kernel::Select => index == 0 || index == 1 || index == 2 || index == 3,
        Kernel::CannyEdgeDetector | Kernel::TensorMatrixMultiply => index == 0 || index == 1 || index == 4,
        Kernel::OpticalFlowPyrLK => index == 0 || index == 1 || index == 2 || index == 4,
        Kernel::NonLinearFilter => index == 1 || index == 2 || index == 3,
        Kernel::TensorConvertDepth => index == 0 || index == 2 || index == 3 || index == 4,
        Kernel::ChannelCombine => index == 0 || if count >= 5 {
            index == 4
        } else {
            index == 3
        },
        _ => index == 0 || index == 1 || index == 2,
    }
}

/// The parameter whose context a kernel runs in.
pub open spec fn context_index(kernel: Kernel) -> Option<usize> {
    match kernel {
        Kernel::Copy | Kernel::TableLookup | Kernel::OpticalFlowPyrLK | Kernel::TensorAdd
        | Kernel::TensorSubtract | Kernel::TensorMultiply | Kernel::TensorConvertDepth
        | Kernel::TensorTableLookup | Kernel::TensorTranspose | Kernel::TensorMatrixMultiply
        | Kernel::ScalarOperation | Kernel::Select => None,
        Kernel::LaplacianReconstruct | Kernel::NonLinearFilter => Some(1),
        _ => Some(0),
    }
}

/// The parameter whose context a kernel runs in.
pub fn context_parameter(kernel: Kernel) -> (r: Option<usize>)
    ensures
        r == context_index(kernel),
{
    match kernel {
        Kernel::Copy | Kernel::TableLookup | Kernel::OpticalFlowPyrLK | Kernel::TensorAdd
        | Kernel::TensorSubtract | Kernel::TensorMultiply | Kernel::TensorConvertDepth
        | Kernel::TensorTableLookup | Kernel::TensorTranspose | Kernel::TensorMatrixMultiply
        | Kernel::ScalarOperation | Kernel::Select => None,
        Kernel::LaplacianReconstruct | Kernel::NonLinearFilter => Some(1),
        _ => Some(0),
    }
}

/// Which form of the border a kernel routine is handed.
pub open spec fn border_form(kernel: Kernel) -> BorderRule {
    match kernel {
        Kernel::Box3x3 | Kernel::Median3x3 | Kernel::Gaussian3x3 | Kernel::Gaussian5x5
        | Kernel::Dilate3x3 | Kernel::Erode3x3 | Kernel::BilateralFilter | Kernel::Convolve
        | Kernel::NonLinearFilter => BorderRule::AsGiven,
        Kernel::WarpPerspective | Kernel::ScaleImage | Kernel::WarpAffine | Kernel::Remap => BorderRule::Converted,
        _ => BorderRule::Unused,
    }
}

/// Which form of the border a kernel routine is handed.
pub fn border_rule(kernel: Kernel) -> (r: BorderRule)
    ensures
        r == border_form(kernel),
{
    match kernel {
        Kernel::Box3x3 | Kernel::Median3x3 | Kernel::Gaussian3x3 | Kernel::Gaussian5x5
        | Kernel::Dilate3x3 | Kernel::Erode3x3 | Kernel::BilateralFilter | Kernel::Convolve
        | Kernel::NonLinearFilter => BorderRule::AsGiven,
        Kernel::WarpPerspective | Kernel::ScaleImage | Kernel::WarpAffine | Kernel::Remap => BorderRule::Converted,
        _ => BorderRule::Unused,
    }
}

/// The argument at `position` where the arguments are the first `n` parameters.
pub open spec fn leading(position: usize, n: usize) -> Option<ArgRule> {
    if position < n {
        Some(ArgRule::Ref(position))
    } else {
        None
    }
}

fn leading_argument(position: usize, n: usize) -> (r: Option<ArgRule>)
    ensures
        r == leading(position, n),
{
    if position < n {
        Some(ArgRule::Ref(position))
    } else {
        None
    }
}

/// How the argument at `position` of a kernel routine is found.
pub open spec fn argument(kernel: Kernel, count: usize, position: usize) -> Option<ArgRule> {
    match kernel {
        Kernel::Box3x3 | Kernel::Median3x3 | Kernel::Gaussian3x3 | Kernel::Gaussian5x5
        | Kernel::Dilate3x3 | Kernel::Erode3x3 | Kernel::ColorConvert | Kernel::IntegralImage
        | Kernel::Copy | Kernel::Not | Kernel::Histogram | Kernel::EqualizeHistogram
        | Kernel::GaussianPyramid => leading(position, 2),
        Kernel::WarpPerspective | Kernel::WarpAffine | Kernel::Remap => match position {
            0 => Some(ArgRule::Ref(0)),
            1 => Some(ArgRule::Ref(1)),
            2 => Some(ArgRule::Word(2, 0x4001, 0x4001)),
            3 => Some(ArgRule::Ref(3)),
            _ => None,
        },
        Kernel::Threshold | Kernel::Min | Kernel::Max | Kernel::AbsDiff | Kernel::Magnitude
        | Kernel::Phase | Kernel::Sobel3x3 | Kernel::And | Kernel::Or | Kernel::Xor
        | Kernel::Convolve | Kernel::TableLookup | Kernel::MeanStdDev | Kernel::LaplacianPyramid
        | Kernel::LaplacianReconstruct | Kernel::TensorTableLookup => leading(position, 3),
        Kernel::Add | Kernel::Subtract | Kernel::TensorAdd | Kernel::TensorSubtract => match position {
            0 => Some(ArgRule::Ref(0)),
            1 => Some(ArgRule::Ref(1)),
            2 => Some(ArgRule::Enum(2, 0)),
            3 => Some(ArgRule::Ref(3)),
            _ => None,
        },
        Kernel::NonMaxSuppression | Kernel::MatchTemplate | Kernel::Lbp | Kernel::WeightedAverage
        | Kernel::ScalarOperation | Kernel::Select => leading(position, 4),
        Kernel::HoughLinesP | Kernel::MinMaxLoc => leading(position, 7),
        Kernel::HogCells => match position {
            0 => Some(ArgRule::Ref(0)),
            1 => Some(ArgRule::NeedInt(1)),
            2 => Some(ArgRule::NeedInt(2)),
            3 => Some(ArgRule::NeedInt(3)),
            4 => Some(ArgRule::Ref(4)),
            5 => Some(ArgRule::Ref(5)),
            _ => None,
        },
        Kernel::HogFeatures => match position {
            0 => Some(ArgRule::Ref(0)),
            1 => Some(ArgRule::Ref(1)),
            2 => Some(ArgRule::Ref(2)),
            3 => Some(ArgRule::Ref(3)),
            4 => Some(ArgRule::NeedSize(4, 40)),
            5 => Some(ArgRule::Ref(5)),
            _ => None,
        },
        Kernel::BilateralFilter => match position {
            0 => Some(ArgRule::Ref(0)),
            1 => Some(ArgRule::NeedInt(1)),
            2 => Some(ArgRule::NeedBits(2)),
            3 => Some(ArgRule::NeedBits(3)),
            4 => Some(ArgRule::Ref(4)),
            _ => None,
        },
        Kernel::Multiply | Kernel::TensorMultiply => match position {
            0 => Some(ArgRule::Ref(0)),
            1 => Some(ArgRule::Ref(1)),
            2 => Some(ArgRule::Ref(2)),
            3 => Some(ArgRule::Enum(3, 0)),
            4 => Some(ArgRule::Enum(4, 0)),
            5 => Some(ArgRule::Ref(5)),
            _ => None,
        },
        Kernel::ScaleImage => match position {
            0 => Some(ArgRule::Ref(0)),
            1 => Some(ArgRule::Ref(2)),
            2 => Some(ArgRule::Enum(1, 0x4001)),
            _ => None,
        },
        Kernel::ChannelExtract => match position {
            0 => Some(ArgRule::Ref(0)),
            1 => Some(ArgRule::Enum(1, 0)),
            2 => Some(ArgRule::Ref(2)),
            _ => None,
        },
        Kernel::HarrisCorners => match position {
            0 => Some(ArgRule::Ref(0)),
            1 => Some(ArgRule::Ref(1)),
            2 => Some(ArgRule::Ref(2)),
            3 => Some(ArgRule::Ref(3)),
            4 => Some(ArgRule::Word(4, 0, 3)),
            5 => Some(ArgRule::Word(5, 0, 3)),
            6 => Some(ArgRule::Ref(6)),
            7 => Some(ArgRule::Ref(7)),
            _ => None,
        },
        Kernel::FastCorners => match position {
            0 => Some(ArgRule::Ref(0)),
            1 => Some(ArgRule::Ref(1)),
            2 => Some(ArgRule::Word(2, 0, 1)),
            3 => Some(ArgRule::Ref(3)),
            4 => Some(ArgRule::Ref(4)),
            _ => None,
        },
        Kernel::CannyEdgeDetector => match position {
            0 => Some(ArgRule::Ref(0)),
            1 => Some(ArgRule::Ref(1)),
            2 => Some(ArgRule::Word(2, 0, 3)),
            3 => Some(ArgRule::Word(3, 0, 0x10000)),
            4 => Some(ArgRule::Ref(4)),
            _ => None,
        },
        Kernel::ConvertDepth => match position {
            0 => Some(ArgRule::Ref(0)),
            1 => Some(ArgRule::Ref(1)),
            2 => Some(ArgRule::Word(2, 0, 0xA001)),
            3 => Some(ArgRule::Word(3, 0, 0)),
            _ => None,
        },
        Kernel::HalfScaleGaussian => match position {
            0 => Some(ArgRule::Ref(0)),
            1 => Some(ArgRule::Ref(1)),
            2 => Some(ArgRule::SizeWord(2, 0, 5)),
            _ => None,
        },
        Kernel::OpticalFlowPyrLK => match position {
            0 => Some(ArgRule::Ref(0)),
            1 => Some(ArgRule::Ref(1)),
            2 => Some(ArgRule::Ref(2)),
            3 => Some(ArgRule::Ref(3)),
            4 => Some(ArgRule::Ref(4)),
            5 => Some(ArgRule::Bits(6, 0x3A83126F)),
            6 => Some(ArgRule::SizeBits(7, 10)),
            7 => Some(ArgRule::Flag(8)),
            8 => Some(ArgRule::Wide(9, 9)),
            _ => None,
        },
        Kernel::NonLinearFilter => match position {
            0 => Some(ArgRule::Ref(1)),
            1 => Some(ArgRule::Enum(0, 0)),
            2 => Some(ArgRule::Ref(2)),
            3 => Some(ArgRule::Ref(3)),
            _ => None,
        },
        Kernel::TensorConvertDepth => match position {
            0 => Some(ArgRule::Ref(0)),
            1 => Some(ArgRule::Enum(1, 0)),
            2 => Some(ArgRule::Ref(2)),
            3 => Some(ArgRule::Ref(3)),
            4 => Some(ArgRule::Ref(4)),
            _ => None,
        },
        Kernel::TensorTranspose => match position {
            0 => Some(ArgRule::Ref(0)),
            1 => Some(ArgRule::Ref(3)),
            2 => Some(ArgRule::SizeEnum(1, 0)),
            3 => Some(ArgRule::SizeEnum(2, 0)),
            _ => None,
        },
        Kernel::TensorMatrixMultiply => leading(position, 5),
        Kernel::ChannelCombine => if count >= 5 {
            leading(position, 5)
        } else {
            match position {
                0 => Some(ArgRule::Ref(0)),
                1 => Some(ArgRule::Ref(1)),
                2 => Some(ArgRule::Ref(2)),
                3 => Some(ArgRule::Null),
                4 => Some(ArgRule::Ref(3)),
                _ => None,
            }
        },
    }
}

/// How the argument at `position` of a kernel routine is found.
pub fn argument_rule(kernel: Kernel, count: usize, position: usize) -> (r: Option<ArgRule>)
    ensures
        r == argument(kernel, count, position),
{
    match kernel {
        Kernel::Box3x3 | Kernel::Median3x3 | Kernel::Gaussian3x3 | Kernel::Gaussian5x5
        | Kernel::Dilate3x3 | Kernel::Erode3x3 | Kernel::ColorConvert | Kernel::IntegralImage
        | Kernel::Copy | Kernel::Not | Kernel::Histogram | Kernel::EqualizeHistogram
        | Kernel::GaussianPyramid => leading_argument(position, 2),
        Kernel::WarpPerspective | Kernel::WarpAffine | Kernel::Remap => match position {
            0 => Some(ArgRule::Ref(0)),
            1 => Some(ArgRule::Ref(1)),
            2 => Some(ArgRule::Word(2, 0x4001, 0x4001)),
            3 => Some(ArgRule::Ref(3)),
            _ => None,
        },
        Kernel::Threshold | Kernel::Min | Kernel::Max | Kernel::AbsDiff | Kernel::Magnitude
        | Kernel::Phase | Kernel::Sobel3x3 | Kernel::And | Kernel::Or | Kernel::Xor
        | Kernel::Convolve | Kernel::TableLookup | Kernel::MeanStdDev | Kernel::LaplacianPyramid
        | Kernel::LaplacianReconstruct | Kernel::TensorTableLookup => leading_argument(position, 3),
        Kernel::Add | Kernel::Subtract | Kernel::TensorAdd | Kernel::TensorSubtract => match position {
            0 => Some(ArgRule::Ref(0)),
            1 => Some(ArgRule::Ref(1)),
            2 => Some(ArgRule::Enum(2, 0)),
            3 => Some(ArgRule::Ref(3)),
            _ => None,
        },
        Kernel::NonMaxSuppression | Kernel::MatchTemplate | Kernel::Lbp | Kernel::WeightedAverage
        | Kernel::ScalarOperation | Kernel::Select => leading_argument(position, 4),
        Kernel::HoughLinesP | Kernel::MinMaxLoc => leading_argument(position, 7),
        Kernel::HogCells => match position {
            0 => Some(ArgRule::Ref(0)),
            1 => Some(ArgRule::NeedInt(1)),
            2 => Some(ArgRule::NeedInt(2)),
            3 => Some(ArgRule::NeedInt(3)),
            4 => Some(ArgRule::Ref(4)),
            5 => Some(ArgRule::Ref(5)),
            _ => None,
        },
        Kernel::HogFeatures => match position {
            0 => Some(ArgRule::Ref(0)),
            1 => Some(ArgRule::Ref(1)),
            2 => Some(ArgRule::Ref(2)),
            3 => Some(ArgRule::Ref(3)),
            4 => Some(ArgRule::NeedSize(4, 40)),
            5 => Some(ArgRule::Ref(5)),
            _ => None,
        },
        Kernel::BilateralFilter => match position {
            0 => Some(ArgRule::Ref(0)),
            1 => Some(ArgRule::NeedInt(1)),
            2 => Some(ArgRule::NeedBits(2)),
            3 => Some(ArgRule::NeedBits(3)),
            4 => Some(ArgRule::Ref(4)),
            _ => None,
        },
        Kernel::Multiply | Kernel::TensorMultiply => match position {
            0 => Some(ArgRule::Ref(0)),
            1 => Some(ArgRule::Ref(1)),
            2 => Some(ArgRule::Ref(2)),
            3 => Some(ArgRule::Enum(3, 0)),
            4 => Some(ArgRule::Enum(4, 0)),
            5 => Some(ArgRule::Ref(5)),
            _ => None,
        },
        Kernel::ScaleImage => match position {
            0 => Some(ArgRule::Ref(0)),
            1 => Some(ArgRule::Ref(2)),
            2 => Some(ArgRule::Enum(1, 0x4001)),
            _ => None,
        },
        Kernel::ChannelExtract => match position {
            0 => Some(ArgRule::Ref(0)),
            1 => Some(ArgRule::Enum(1, 0)),
            2 => Some(ArgRule::Ref(2)),
            _ => None,
        },
        Kernel::HarrisCorners => match position {
            0 => Some(ArgRule::Ref(0)),
            1 => Some(ArgRule::Ref(1)),
            2 => Some(ArgRule::Ref(2)),
            3 => Some(ArgRule::Ref(3)),
            4 => Some(ArgRule::Word(4, 0, 3)),
            5 => Some(ArgRule::Word(5, 0, 3)),
            6 => Some(ArgRule::Ref(6)),
            7 => Some(ArgRule::Ref(7)),
            _ => None,
        },
        Kernel::FastCorners => match position {
            0 => Some(ArgRule::Ref(0)),
            1 => Some(ArgRule::Ref(1)),
            2 => Some(ArgRule::Word(2, 0, 1)),
            3 => Some(ArgRule::Ref(3)),
            4 => Some(ArgRule::Ref(4)),
            _ => None,
        },
        Kernel::CannyEdgeDetector => match position {
            0 => Some(ArgRule::Ref(0)),
            1 => Some(ArgRule::Ref(1)),
            2 => Some(ArgRule::Word(2, 0, 3)),
            3 => Some(ArgRule::Word(3, 0, 0x10000)),
            4 => Some(ArgRule::Ref(4)),
            _ => None,
        },
        Kernel::ConvertDepth => match position {
            0 => Some(ArgRule::Ref(0)),
            1 => Some(ArgRule::Ref(1)),
            2 => Some(ArgRule::Word(2, 0, 0xA001)),
            3 => Some(ArgRule::Word(3, 0, 0)),
            _ => None,
        },
        Kernel::HalfScaleGaussian => match position {
            0 => Some(ArgRule::Ref(0)),
            1 => Some(ArgRule::Ref(1)),
            2 => Some(ArgRule::SizeWord(2, 0, 5)),
            _ => None,
        },
        Kernel::OpticalFlowPyrLK => match position {
            0 => Some(ArgRule::Ref(0)),
            1 => Some(ArgRule::Ref(1)),
            2 => Some(ArgRule::Ref(2)),
            3 => Some(ArgRule::Ref(3)),
            4 => Some(ArgRule::Ref(4)),
            5 => Some(ArgRule::Bits(6, 0x3A83126F)),
            6 => Some(ArgRule::SizeBits(7, 10)),
            7 => Some(ArgRule::Flag(8)),
            8 => Some(ArgRule::Wide(9, 9)),
            _ => None,
        },
        Kernel::NonLinearFilter => match position {
            0 => Some(ArgRule::Ref(1)),
            1 => Some(ArgRule::Enum(0, 0)),
            2 => Some(ArgRule::Ref(2)),
            3 => Some(ArgRule::Ref(3)),
            _ => None,
        },
        Kernel::TensorConvertDepth => match position {
            0 => Some(ArgRule::Ref(0)),
            1 => Some(ArgRule::Enum(1, 0)),
            2 => Some(ArgRule::Ref(2)),
            3 => Some(ArgRule::Ref(3)),
            4 => Some(ArgRule::Ref(4)),
            _ => None,
        },
        Kernel::TensorTranspose => match position {
            0 => Some(ArgRule::Ref(0)),
            1 => Some(ArgRule::Ref(3)),
            2 => Some(ArgRule::SizeEnum(1, 0)),
            3 => Some(ArgRule::SizeEnum(2, 0)),
            _ => None,
        },
        Kernel::TensorMatrixMultiply => leading_argument(position, 5),
        Kernel::ChannelCombine => if count >= 5 {
            leading_argument(position, 5)
        } else {
            match position {
                0 => Some(ArgRule::Ref(0)),
                1 => Some(ArgRule::Ref(1)),
                2 => Some(ArgRule::Ref(2)),
                3 => Some(ArgRule::Null),
                4 => Some(ArgRule::Ref(3)),
                _ => None,
            }
        },
    }
}

/// Finds the kernel registered under a name.
pub fn kernel_from_name(name: &str) -> (r: Option<Kernel>)
    ensures
        r == kernel_named(name@),
{
    let name = name.to_owned();
    if name == "org.khronos.openvx.box_3x3".to_owned() {
        return Some(Kernel::Box3x3);
    }
    if name == "org.khronos.openvx.median_3x3".to_owned() {
        return Some(Kernel::Median3x3);
    }
    if name == "org.khronos.openvx.gaussian_3x3".to_owned() {
        return Some(Kernel::Gaussian3x3);
    }
    if name == "org.khronos.openvx.gaussian_5x5".to_owned() {
        return Some(Kernel::Gaussian5x5);
    }
    if name == "org.khronos.openvx.dilate_3x3".to_owned() {
        return Some(Kernel::Dilate3x3);
    }
    if name == "org.khronos.openvx.erode_3x3".to_owned() {
        return Some(Kernel::Erode3x3);
    }
    if name == "org.khronos.openvx.color_convert".to_owned() {
        return Some(Kernel::ColorConvert);
    }
    if name == "org.khronos.openvx.warp_perspective".to_owned() {
        return Some(Kernel::WarpPerspective);
    }
    if name == "org.khronos.openvx.threshold".to_owned() {
        return Some(Kernel::Threshold);
    }
    if name == "org.khronos.openvx.integral_image".to_owned() {
        return Some(Kernel::IntegralImage);
    }
    if name == "org.khronos.openvx.add".to_owned() {
        return Some(Kernel::Add);
    }
    if name == "org.khronos.openvx.subtract".to_owned() {
        return Some(Kernel::Subtract);
    }
    if name == "org.khronos.openvx.min".to_owned() {
        return Some(Kernel::Min);
    }
    if name == "org.khronos.openvx.max".to_owned() {
        return Some(Kernel::Max);
    }
    if name == "org.khronos.openvx.copy".to_owned() {
        return Some(Kernel::Copy);
    }
    if name == "org.khronos.openvx.non_max_suppression".to_owned() {
        return Some(Kernel::NonMaxSuppression);
    }
    if name == "org.khronos.openvx.hough_lines_p".to_owned() {
        return Some(Kernel::HoughLinesP);
    }
    if name == "org.khronos.openvx.match_template".to_owned() {
        return Some(Kernel::MatchTemplate);
    }
    if name == "org.khronos.openvx.lbp".to_owned() {
        return Some(Kernel::Lbp);
    }
    if name == "org.khronos.openvx.hog_cells".to_owned() {
        return Some(Kernel::HogCells);
    }
    if name == "org.khronos.openvx.hog_features".to_owned() {
        return Some(Kernel::HogFeatures);
    }
    if name == "org.khronos.openvx.bilateral_filter".to_owned() {
        return Some(Kernel::BilateralFilter);
    }
    if name == "org.khronos.openvx.multiply".to_owned() {
        return Some(Kernel::Multiply);
    }
    if name == "org.khronos.openvx.absdiff".to_owned() {
        return Some(Kernel::AbsDiff);
    }
    if name == "org.khronos.openvx.magnitude".to_owned() {
        return Some(Kernel::Magnitude);
    }
    if name == "org.khronos.openvx.phase".to_owned() {
        return Some(Kernel::Phase);
    }
    if name == "org.khronos.openvx.scale_image".to_owned() {
        return Some(Kernel::ScaleImage);
    }
    if name == "org.khronos.openvx.sobel_3x3".to_owned() {
        return Some(Kernel::Sobel3x3);
    }
    if name == "org.khronos.openvx.warp_affine".to_owned() {
        return Some(Kernel::WarpAffine);
    }
    if name == "org.khronos.openvx.remap".to_owned() {
        return Some(Kernel::Remap);
    }
    if name == "org.khronos.openvx.and".to_owned() {
        return Some(Kernel::And);
    }
    if name == "org.khronos.openvx.or".to_owned() {
        return Some(Kernel::Or);
    }
    if name == "org.khronos.openvx.xor".to_owned() {
        return Some(Kernel::Xor);
    }
    if name == "org.khronos.openvx.not".to_owned() {
        return Some(Kernel::Not);
    }
    if name == "org.khronos.openvx.weighted_average".to_owned() {
        return Some(Kernel::WeightedAverage);
    }
    if name == "org.khronos.openvx.channel_extract".to_owned() {
        return Some(Kernel::ChannelExtract);
    }
    if name == "org.khronos.openvx.channel_combine".to_owned() {
        return Some(Kernel::ChannelCombine);
    }
    if name == "org.khronos.openvx.convolve".to_owned() {
        return Some(Kernel::Convolve);
    }
    if name == "org.khronos.openvx.histogram".to_owned() {
        return Some(Kernel::Histogram);
    }
    if name == "org.khronos.openvx.harris_corners".to_owned() {
        return Some(Kernel::HarrisCorners);
    }
    if name == "org.khronos.openvx.fast_corners".to_owned() {
        return Some(Kernel::FastCorners);
    }
    if name == "org.khronos.openvx.canny_edge_detector".to_owned() {
        return Some(Kernel::CannyEdgeDetector);
    }
    if name == "org.khronos.openvx.table_lookup".to_owned() {
        return Some(Kernel::TableLookup);
    }
    if name == "org.khronos.openvx.convertdepth".to_owned() {
        return Some(Kernel::ConvertDepth);
    }
    if name == "org.khronos.openvx.equalize_histogram".to_owned() {
        return Some(Kernel::EqualizeHistogram);
    }
    if name == "org.khronos.openvx.mean_stddev".to_owned() {
        return Some(Kernel::MeanStdDev);
    }
    if name == "org.khronos.openvx.minmaxloc".to_owned() {
        return Some(Kernel::MinMaxLoc);
    }
    if name == "org.khronos.openvx.gaussian_pyramid".to_owned() {
        return Some(Kernel::GaussianPyramid);
    }
    if name == "org.khronos.openvx.halfscale_gaussian".to_owned() {
        return Some(Kernel::HalfScaleGaussian);
    }
    if name == "org.khronos.openvx.laplacian_pyramid".to_owned() {
        return Some(Kernel::LaplacianPyramid);
    }
    if name == "org.khronos.openvx.laplacian_reconstruct".to_owned() {
        return Some(Kernel::LaplacianReconstruct);
    }
    if name == "org.khronos.openvx.optical_flow_pyr_lk".to_owned() {
        return Some(Kernel::OpticalFlowPyrLK);
    }
    if name == "org.khronos.openvx.non_linear_filter".to_owned() {
        return Some(Kernel::NonLinearFilter);
    }
    if name == "org.khronos.openvx.tensor_add".to_owned() {
        return Some(Kernel::TensorAdd);
    }
    if name == "org.khronos.openvx.tensor_subtract".to_owned() {
        return Some(Kernel::TensorSubtract);
    }
    if name == "org.khronos.openvx.tensor_multiply".to_owned() {
        return Some(Kernel::TensorMultiply);
    }
    if name == "org.khronos.openvx.tensor_convert_depth".to_owned() {
        return Some(Kernel::TensorConvertDepth);
    }
    if name == "org.khronos.openvx.tensor_table_lookup".to_owned() {
        return Some(Kernel::TensorTableLookup);
    }
    if name == "org.khronos.openvx.tensor_transpose".to_owned() {
        return Some(Kernel::TensorTranspose);
    }
    if name == "org.khronos.openvx.tensor_matrix_multiply".to_owned() {
        return Some(Kernel::TensorMatrixMultiply);
    }
    if name == "org.khronos.openvx.scalar_operation".to_owned() {
        return Some(Kernel::ScalarOperation);
    }
    if name == "org.khronos.openvx.select".to_owned() {
        return Some(Kernel::Select);
    }
    None
}

/// A kernel that is found under a name bears that name, and is found under it:
/// its length and three of its letters tell a name from all others.
#[verifier::spinoff_prover]
pub proof fn law_kernel_names(kernel: Kernel, name: Seq<char>)
    ensures
        kernel_named(name) == Some(kernel) <==> name == name_of(kernel),
{
    reveal_strlit("org.khronos.openvx.box_3x3");
    assert("org.khronos.openvx.box_3x3"@.len() == 26 && "org.khronos.openvx.box_3x3"@[19] == 'b' && "org.khronos.openvx.box_3x3"@[20] == 'o');
    reveal_strlit("org.khronos.openvx.median_3x3");
    assert("org.khronos.openvx.median_3x3"@.len() == 29 && "org.khronos.openvx.median_3x3"@[19] == 'm' && "org.khronos.openvx.median_3x3"@[20] == 'e' && "org.khronos.openvx.median_3x3"@[28] == '3');
    reveal_strlit("org.khronos.openvx.gaussian_3x3");
    assert("org.khronos.openvx.gaussian_3x3"@.len() == 31 && "org.khronos.openvx.gaussian_3x3"@[19] == 'g' && "org.khronos.openvx.gaussian_3x3"@[20] == 'a' && "org.khronos.openvx.gaussian_3x3"@[28] == '3');
    reveal_strlit("org.khronos.openvx.gaussian_5x5");
    assert("org.khronos.openvx.gaussian_5x5"@.len() == 31 && "org.khronos.openvx.gaussian_5x5"@[19] == 'g' && "org.khronos.openvx.gaussian_5x5"@[20] == 'a' && "org.khronos.openvx.gaussian_5x5"@[28] == '5');
    reveal_strlit("org.khronos.openvx.dilate_3x3");
    assert("org.khronos.openvx.dilate_3x3"@.len() == 29 && "org.khronos.openvx.dilate_3x3"@[19] == 'd' && "org.khronos.openvx.dilate_3x3"@[20] == 'i' && "org.khronos.openvx.dilate_3x3"@[28] == '3');
    reveal_strlit("org.khronos.openvx.erode_3x3");
    assert("org.khronos.openvx.erode_3x3"@.len() == 28 && "org.khronos.openvx.erode_3x3"@[19] == 'e' && "org.khronos.openvx.erode_3x3"@[20] == 'r');
    reveal_strlit("org.khronos.openvx.color_convert");
    assert("org.khronos.openvx.color_convert"@.len() == 32 && "org.khronos.openvx.color_convert"@[19] == 'c' && "org.khronos.openvx.color_convert"@[20] == 'o' && "org.khronos.openvx.color_convert"@[28] == 'v');
    reveal_strlit("org.khronos.openvx.warp_perspective");
    assert("org.khronos.openvx.warp_perspective"@.len() == 35 && "org.khronos.openvx.warp_perspective"@[19] == 'w' && "org.khronos.openvx.warp_perspective"@[20] == 'a' && "org.khronos.openvx.warp_perspective"@[28] == 'p');
    reveal_strlit("org.khronos.openvx.threshold");
    assert("org.khronos.openvx.threshold"@.len() == 28 && "org.khronos.openvx.threshold"@[19] == 't' && "org.khronos.openvx.threshold"@[20] == 'h');
    reveal_strlit("org.khronos.openvx.integral_image");
    assert("org.khronos.openvx.integral_image"@.len() == 33 && "org.khronos.openvx.integral_image"@[19] == 'i' && "org.khronos.openvx.integral_image"@[20] == 'n' && "org.khronos.openvx.integral_image"@[28] == 'i');
    reveal_strlit("org.khronos.openvx.add");
    assert("org.khronos.openvx.add"@.len() == 22 && "org.khronos.openvx.add"@[19] == 'a' && "org.khronos.openvx.add"@[20] == 'd');
    reveal_strlit("org.khronos.openvx.subtract");
    assert("org.khronos.openvx.subtract"@.len() == 27 && "org.khronos.openvx.subtract"@[19] == 's' && "org.khronos.openvx.subtract"@[20] == 'u');
    reveal_strlit("org.khronos.openvx.min");
    assert("org.khronos.openvx.min"@.len() == 22 && "org.khronos.openvx.min"@[19] == 'm' && "org.khronos.openvx.min"@[20] == 'i');
    reveal_strlit("org.khronos.openvx.max");
    assert("org.khronos.openvx.max"@.len() == 22 && "org.khronos.openvx.max"@[19] == 'm' && "org.khronos.openvx.max"@[20] == 'a');
    reveal_strlit("org.khronos.openvx.copy");
    assert("org.khronos.openvx.copy"@.len() == 23 && "org.khronos.openvx.copy"@[19] == 'c' && "org.khronos.openvx.copy"@[20] == 'o');
    reveal_strlit("org.khronos.openvx.non_max_suppression");
    assert("org.khronos.openvx.non_max_suppression"@.len() == 38 && "org.khronos.openvx.non_max_suppression"@[19] == 'n' && "org.khronos.openvx.non_max_suppression"@[20] == 'o' && "org.khronos.openvx.non_max_suppression"@[28] == 'u');
    reveal_strlit("org.khronos.openvx.hough_lines_p");
    assert("org.khronos.openvx.hough_lines_p"@.len() == 32 && "org.khronos.openvx.hough_lines_p"@[19] == 'h' && "org.khronos.openvx.hough_lines_p"@[20] == 'o' && "org.khronos.openvx.hough_lines_p"@[28] == 'e');
    reveal_strlit("org.khronos.openvx.match_template");
    assert("org.khronos.openvx.match_template"@.len() == 33 && "org.khronos.openvx.match_template"@[19] == 'm' && "org.khronos.openvx.match_template"@[20] == 'a' && "org.khronos.openvx.match_template"@[28] == 'p');
    reveal_strlit("org.khronos.openvx.lbp");
    assert("org.khronos.openvx.lbp"@.len() == 22 && "org.khronos.openvx.lbp"@[19] == 'l' && "org.khronos.openvx.lbp"@[20] == 'b');
    reveal_strlit("org.khronos.openvx.hog_cells");
    assert("org.khronos.openvx.hog_cells"@.len() == 28 && "org.khronos.openvx.hog_cells"@[19] == 'h' && "org.khronos.openvx.hog_cells"@[20] == 'o');
    reveal_strlit("org.khronos.openvx.hog_features");
    assert("org.khronos.openvx.hog_features"@.len() == 31 && "org.khronos.openvx.hog_features"@[19] == 'h' && "org.khronos.openvx.hog_features"@[20] == 'o' && "org.khronos.openvx.hog_features"@[28] == 'r');
    reveal_strlit("org.khronos.openvx.bilateral_filter");
    assert("org.khronos.openvx.bilateral_filter"@.len() == 35 && "org.khronos.openvx.bilateral_filter"@[19] == 'b' && "org.khronos.openvx.bilateral_filter"@[20] == 'i' && "org.khronos.openvx.bilateral_filter"@[28] == '_');
    reveal_strlit("org.khronos.openvx.multiply");
    assert("org.khronos.openvx.multiply"@.len() == 27 && "org.khronos.openvx.multiply"@[19] == 'm' && "org.khronos.openvx.multiply"@[20] == 'u');
    reveal_strlit("org.khronos.openvx.absdiff");
    assert("org.khronos.openvx.absdiff"@.len() == 26 && "org.khronos.openvx.absdiff"@[19] == 'a' && "org.khronos.openvx.absdiff"@[20] == 'b');
    reveal_strlit("org.khronos.openvx.magnitude");
    assert("org.khronos.openvx.magnitude"@.len() == 28 && "org.khronos.openvx.magnitude"@[19] == 'm' && "org.khronos.openvx.magnitude"@[20] == 'a');
    reveal_strlit("org.khronos.openvx.phase");
    assert("org.khronos.openvx.phase"@.len() == 24 && "org.khronos.openvx.phase"@[19] == 'p' && "org.khronos.openvx.phase"@[20] == 'h');
    reveal_strlit("org.khronos.openvx.scale_image");
    assert("org.khronos.openvx.scale_image"@.len() == 30 && "org.khronos.openvx.scale_image"@[19] == 's' && "org.khronos.openvx.scale_image"@[20] == 'c' && "org.khronos.openvx.scale_image"@[28] == 'g');
    reveal_strlit("org.khronos.openvx.sobel_3x3");
    assert("org.khronos.openvx.sobel_3x3"@.len() == 28 && "org.khronos.openvx.sobel_3x3"@[19] == 's' && "org.khronos.openvx.sobel_3x3"@[20] == 'o');
    reveal_strlit("org.khronos.openvx.warp_affine");
    assert("org.khronos.openvx.warp_affine"@.len() == 30 && "org.khronos.openvx.warp_affine"@[19] == 'w' && "org.khronos.openvx.warp_affine"@[20] == 'a' && "org.khronos.openvx.warp_affine"@[28] == 'n');
    reveal_strlit("org.khronos.openvx.remap");
    assert("org.khronos.openvx.remap"@.len() == 24 && "org.khronos.openvx.remap"@[19] == 'r' && "org.khronos.openvx.remap"@[20] == 'e');
    reveal_strlit("org.khronos.openvx.and");
    assert("org.khronos.openvx.and"@.len() == 22 && "org.khronos.openvx.and"@[19] == 'a' && "org.khronos.openvx.and"@[20] == 'n');
    reveal_strlit("org.khronos.openvx.or");
    assert("org.khronos.openvx.or"@.len() == 21 && "org.khronos.openvx.or"@[19] == 'o' && "org.khronos.openvx.or"@[20] == 'r');
    reveal_strlit("org.khronos.openvx.xor");
    assert("org.khronos.openvx.xor"@.len() == 22 && "org.khronos.openvx.xor"@[19] == 'x' && "org.khronos.openvx.xor"@[20] == 'o');
    reveal_strlit("org.khronos.openvx.not");
    assert("org.khronos.openvx.not"@.len() == 22 && "org.khronos.openvx.not"@[19] == 'n' && "org.khronos.openvx.not"@[20] == 'o');
    reveal_strlit("org.khronos.openvx.weighted_average");
    assert("org.khronos.openvx.weighted_average"@.len() == 35 && "org.khronos.openvx.weighted_average"@[19] == 'w' && "org.khronos.openvx.weighted_average"@[20] == 'e' && "org.khronos.openvx.weighted_average"@[28] == 'a');
    reveal_strlit("org.khronos.openvx.channel_extract");
    assert("org.khronos.openvx.channel_extract"@.len() == 34 && "org.khronos.openvx.channel_extract"@[19] == 'c' && "org.khronos.openvx.channel_extract"@[20] == 'h' && "org.khronos.openvx.channel_extract"@[28] == 'x');
    reveal_strlit("org.khronos.openvx.channel_combine");
    assert("org.khronos.openvx.channel_combine"@.len() == 34 && "org.khronos.openvx.channel_combine"@[19] == 'c' && "org.khronos.openvx.channel_combine"@[20] == 'h' && "org.khronos.openvx.channel_combine"@[28] == 'o');
    reveal_strlit("org.khronos.openvx.convolve");
    assert("org.khronos.openvx.convolve"@.len() == 27 && "org.khronos.openvx.convolve"@[19] == 'c' && "org.khronos.openvx.convolve"@[20] == 'o');
    reveal_strlit("org.khronos.openvx.histogram");
    assert("org.khronos.openvx.histogram"@.len() == 28 && "org.khronos.openvx.histogram"@[19] == 'h' && "org.khronos.openvx.histogram"@[20] == 'i');
    reveal_strlit("org.khronos.openvx.harris_corners");
    assert("org.khronos.openvx.harris_corners"@.len() == 33 && "org.khronos.openvx.harris_corners"@[19] == 'h' && "org.khronos.openvx.harris_corners"@[20] == 'a' && "org.khronos.openvx.harris_corners"@[28] == 'r');
    reveal_strlit("org.khronos.openvx.fast_corners");
    assert("org.khronos.openvx.fast_corners"@.len() == 31 && "org.khronos.openvx.fast_corners"@[19] == 'f' && "org.khronos.openvx.fast_corners"@[20] == 'a' && "org.khronos.openvx.fast_corners"@[28] == 'e');
    reveal_strlit("org.khronos.openvx.canny_edge_detector");
    assert("org.khronos.openvx.canny_edge_detector"@.len() == 38 && "org.khronos.openvx.canny_edge_detector"@[19] == 'c' && "org.khronos.openvx.canny_edge_detector"@[20] == 'a' && "org.khronos.openvx.canny_edge_detector"@[28] == 'e');
    reveal_strlit("org.khronos.openvx.table_lookup");
    assert("org.khronos.openvx.table_lookup"@.len() == 31 && "org.khronos.openvx.table_lookup"@[19] == 't' && "org.khronos.openvx.table_lookup"@[20] == 'a' && "org.khronos.openvx.table_lookup"@[28] == 'k');
    reveal_strlit("org.khronos.openvx.convertdepth");
    assert("org.khronos.openvx.convertdepth"@.len() == 31 && "org.khronos.openvx.convertdepth"@[19] == 'c' && "org.khronos.openvx.convertdepth"@[20] == 'o' && "org.khronos.openvx.convertdepth"@[28] == 'p');
    reveal_strlit("org.khronos.openvx.equalize_histogram");
    assert("org.khronos.openvx.equalize_histogram"@.len() == 37 && "org.khronos.openvx.equalize_histogram"@[19] == 'e' && "org.khronos.openvx.equalize_histogram"@[20] == 'q' && "org.khronos.openvx.equalize_histogram"@[28] == 'h');
    reveal_strlit("org.khronos.openvx.mean_stddev");
    assert("org.khronos.openvx.mean_stddev"@.len() == 30 && "org.khronos.openvx.mean_stddev"@[19] == 'm' && "org.khronos.openvx.mean_stddev"@[20] == 'e' && "org.khronos.openvx.mean_stddev"@[28] == 'e');
    reveal_strlit("org.khronos.openvx.minmaxloc");
    assert("org.khronos.openvx.minmaxloc"@.len() == 28 && "org.khronos.openvx.minmaxloc"@[19] == 'm' && "org.khronos.openvx.minmaxloc"@[20] == 'i');
    reveal_strlit("org.khronos.openvx.gaussian_pyramid");
    assert("org.khronos.openvx.gaussian_pyramid"@.len() == 35 && "org.khronos.openvx.gaussian_pyramid"@[19] == 'g' && "org.khronos.openvx.gaussian_pyramid"@[20] == 'a' && "org.khronos.openvx.gaussian_pyramid"@[28] == 'p');
    reveal_strlit("org.khronos.openvx.halfscale_gaussian");
    assert("org.khronos.openvx.halfscale_gaussian"@.len() == 37 && "org.khronos.openvx.halfscale_gaussian"@[19] == 'h' && "org.khronos.openvx.halfscale_gaussian"@[20] == 'a' && "org.khronos.openvx.halfscale_gaussian"@[28] == '_');
    reveal_strlit("org.khronos.openvx.laplacian_pyramid");
    assert("org.khronos.openvx.laplacian_pyramid"@.len() == 36 && "org.khronos.openvx.laplacian_pyramid"@[19] == 'l' && "org.khronos.openvx.laplacian_pyramid"@[20] == 'a' && "org.khronos.openvx.laplacian_pyramid"@[28] == '_');
    reveal_strlit("org.khronos.openvx.laplacian_reconstruct");
    assert("org.khronos.openvx.laplacian_reconstruct"@.len() == 40 && "org.khronos.openvx.laplacian_reconstruct"@[19] == 'l' && "org.khronos.openvx.laplacian_reconstruct"@[20] == 'a' && "org.khronos.openvx.laplacian_reconstruct"@[28] == '_');
    reveal_strlit("org.khronos.openvx.optical_flow_pyr_lk");
    assert("org.khronos.openvx.optical_flow_pyr_lk"@.len() == 38 && "org.khronos.openvx.optical_flow_pyr_lk"@[19] == 'o' && "org.khronos.openvx.optical_flow_pyr_lk"@[20] == 'p' && "org.khronos.openvx.optical_flow_pyr_lk"@[28] == 'l');
    reveal_strlit("org.khronos.openvx.non_linear_filter");
    assert("org.khronos.openvx.non_linear_filter"@.len() == 36 && "org.khronos.openvx.non_linear_filter"@[19] == 'n' && "org.khronos.openvx.non_linear_filter"@[20] == 'o' && "org.khronos.openvx.non_linear_filter"@[28] == 'r');
    reveal_strlit("org.khronos.openvx.tensor_add");
    assert("org.khronos.openvx.tensor_add"@.len() == 29 && "org.khronos.openvx.tensor_add"@[19] == 't' && "org.khronos.openvx.tensor_add"@[20] == 'e' && "org.khronos.openvx.tensor_add"@[28] == 'd');
    reveal_strlit("org.khronos.openvx.tensor_subtract");
    assert("org.khronos.openvx.tensor_subtract"@.len() == 34 && "org.khronos.openvx.tensor_subtract"@[19] == 't' && "org.khronos.openvx.tensor_subtract"@[20] == 'e' && "org.khronos.openvx.tensor_subtract"@[28] == 'b');
    reveal_strlit("org.khronos.openvx.tensor_multiply");
    assert("org.khronos.openvx.tensor_multiply"@.len() == 34 && "org.khronos.openvx.tensor_multiply"@[19] == 't' && "org.khronos.openvx.tensor_multiply"@[20] == 'e' && "org.khronos.openvx.tensor_multiply"@[28] == 'l');
    reveal_strlit("org.khronos.openvx.tensor_convert_depth");
    assert("org.khronos.openvx.tensor_convert_depth"@.len() == 39 && "org.khronos.openvx.tensor_convert_depth"@[19] == 't' && "org.khronos.openvx.tensor_convert_depth"@[20] == 'e' && "org.khronos.openvx.tensor_convert_depth"@[28] == 'n');
    reveal_strlit("org.khronos.openvx.tensor_table_lookup");
    assert("org.khronos.openvx.tensor_table_lookup"@.len() == 38 && "org.khronos.openvx.tensor_table_lookup"@[19] == 't' && "org.khronos.openvx.tensor_table_lookup"@[20] == 'e' && "org.khronos.openvx.tensor_table_lookup"@[28] == 'b');
    reveal_strlit("org.khronos.openvx.tensor_transpose");
    assert("org.khronos.openvx.tensor_transpose"@.len() == 35 && "org.khronos.openvx.tensor_transpose"@[19] == 't' && "org.khronos.openvx.tensor_transpose"@[20] == 'e' && "org.khronos.openvx.tensor_transpose"@[28] == 'a');
    reveal_strlit("org.khronos.openvx.tensor_matrix_multiply");
    assert("org.khronos.openvx.tensor_matrix_multiply"@.len() == 41 && "org.khronos.openvx.tensor_matrix_multiply"@[19] == 't' && "org.khronos.openvx.tensor_matrix_multiply"@[20] == 'e' && "org.khronos.openvx.tensor_matrix_multiply"@[28] == 't');
    reveal_strlit("org.khronos.openvx.scalar_operation");
    assert("org.khronos.openvx.scalar_operation"@.len() == 35 && "org.khronos.openvx.scalar_operation"@[19] == 's' && "org.khronos.openvx.scalar_operation"@[20] == 'c' && "org.khronos.openvx.scalar_operation"@[28] == 'e');
    reveal_strlit("org.khronos.openvx.select");
    assert("org.khronos.openvx.select"@.len() == 25 && "org.khronos.openvx.select"@[19] == 's' && "org.khronos.openvx.select"@[20] == 'e');
}

} // verus!
