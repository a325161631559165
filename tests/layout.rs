use radarpub::can::Target;
use radarpub::cube::{interleave, message_shape, Complex16};
use radarpub::pointcloud::{
    cluster_fields, format_clusters, format_targets, pack_points, point_cloud_schema, target_fields, PointFieldType,
};
use radarpub::settings::{CenterFrequency, DetectionSensitivity, Error, FrequencySweep, RangeToggle};
use radarpub::window::TargetWindow;

#[test]
fn target_cloud_layout() {
    let points: Vec<[f32; 6]> = vec![[1.0, 2.0, 3.0, -0.5, 40.0, -4.2], [0.0, 0.0, 0.0, 0.0, 0.0, 0.0]];
    let bits: Vec<[u32; 6]> = points.iter().map(|p| p.map(f32::to_bits)).collect();
    let cloud = format_targets(&bits).unwrap();
    assert_eq!(cloud.height, 1);
    assert_eq!(cloud.width, 2);
    assert_eq!(cloud.point_step, 24);
    assert_eq!(cloud.row_step, cloud.width * cloud.point_step);
    assert_eq!(cloud.data.len(), cloud.row_step as usize);
    assert!(cloud.is_dense);
    assert!(!cloud.is_bigendian);
    assert_eq!(&cloud.data[0..4], &1.0f32.to_le_bytes());
    assert_eq!(&cloud.data[20..24], &(-4.2f32).to_le_bytes());
    let names: Vec<(&str, u32)> = cloud.fields.iter().map(|f| (f.name, f.offset)).collect();
    assert_eq!(
        names,
        vec![("x", 0), ("y", 4), ("z", 8), ("speed", 12), ("power", 16), ("rcs", 20)]
    );
    assert!(cloud.fields.iter().all(|f| f.datatype == 7 && f.count == 1));
    assert_eq!(point_cloud_schema(), "sensor_msgs/msg/PointCloud2");
}

#[test]
fn cluster_cloud_layout() {
    let bits: Vec<[u32; 6]> = vec![[0, 1, 2, 3, 4, 5], [6, 7, 8, 9, 10, 11], [12, 13, 14, 15, 16, 17]];
    let cloud = format_clusters(&bits, &vec![100, 101, 102]).unwrap();
    assert_eq!(cloud.width, 3);
    assert_eq!(cloud.point_step, 28);
    assert_eq!(cloud.row_step, 84);
    assert_eq!(cloud.data.len(), 84);
    assert_eq!(&cloud.data[4..8], &[1, 0, 0, 0]);
    assert_eq!(&cloud.data[24..28], &[100, 0, 0, 0]);
    assert_eq!(&cloud.data[52..56], &[101, 0, 0, 0]);
    assert_eq!(cloud.fields.len(), 7);
    assert_eq!((cloud.fields[6].name, cloud.fields[6].offset), ("cluster_id", 24));
    assert!(format_clusters(&bits, &vec![1]).is_none());
    let words: Vec<u32> = (0..21).collect();
    assert!(pack_points(&words, target_fields()).is_none());
    assert!(pack_points(&words, Vec::new()).is_none());
    assert_eq!(pack_points(&words, cluster_fields()).unwrap().width, 3);
    let empty = format_targets(&Vec::new()).unwrap();
    assert_eq!((empty.width, empty.row_step, empty.data.len()), (0, 0, 0));
    assert_eq!(PointFieldType::FLOAT32.code(), 7);
    assert_eq!(PointFieldType::INT8.code(), 1);
}

#[test]
fn cube_message_layout() {
    let data = vec![Complex16 { re: 1, im: -2 }, Complex16 { re: 32767, im: -32768 }];
    assert_eq!(interleave(&data), vec![1, -2, 32767, -32768]);
    assert_eq!(message_shape([2, 128, 4, 64]), Some([2, 128, 4, 128]));
    assert_eq!(message_shape([1, 1, 1, 40000]), None);
}

#[test]
fn settings_codes() {
    assert_eq!(CenterFrequency::try_from_code(1), Ok(CenterFrequency::Medium));
    assert_eq!(CenterFrequency::try_from_code(3), Err(Error::InvalidCenterFrequency(3)));
    assert_eq!(FrequencySweep::try_from_code(3).unwrap().label(), "ultra-short");
    assert_eq!(FrequencySweep::try_from_code(4), Err(Error::InvalidFrequencySweep(4)));
    assert_eq!(RangeToggle::try_from_code(6).unwrap().label(), "short-ultra-short");
    assert_eq!(RangeToggle::try_from_code(7), Err(Error::InvalidRangeToggle(7)));
    assert_eq!(DetectionSensitivity::High.code(), 2);
    assert_eq!(DetectionSensitivity::try_from_code(9), Err(Error::InvalidDetectionSensitivity(9)));
    assert_eq!(CenterFrequency::Low.label(), "low");
}

fn target(range: u32) -> Target {
    Target { range, azimuth: 0, elevation: 0, speed: 0, rcs: 0, power: 0, noise: 0 }
}

#[test]
fn sliding_window() {
    let mut w = TargetWindow::new(2);
    w.push(vec![target(1)]);
    w.push(vec![target(2), target(3)]);
    assert_eq!(w.targets().iter().map(|t| t.range).collect::<Vec<_>>(), vec![1, 2, 3]);
    w.push(vec![target(4)]);
    assert_eq!(w.frames.len(), 2);
    assert_eq!(w.targets().iter().map(|t| t.range).collect::<Vec<_>>(), vec![2, 3, 4]);
}
