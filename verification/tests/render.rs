use render_callback::action_flags::{OUTPUT_IS_SILENCE, PRE_RENDER};
use render_callback::buffer::{AudioBuffer, Custom, LinearPcm, NonInterleaved};
use render_callback::error::{os_status, Error, NO_ERROR, UNSPECIFIED_ERROR};
use render_callback::render::{checked_input_proc, input_proc, Args, InputProcFnWrapper};

type Interleaved<'a, S> = LinearPcm<&'a mut [S]>;
type Planar<'a, S> = LinearPcm<NonInterleaved<'a, S>>;

#[test]
fn statuses() {
    assert_eq!(NO_ERROR, 0);
    assert_eq!(UNSPECIFIED_ERROR, -1500);
    assert_eq!(os_status(Ok(())), 0);
    assert_eq!(os_status(Err(())), -1500);
}

#[test]
fn statuses_are_read_back() {
    assert_eq!(Error::from_os_status(0), Ok(()));
    assert_eq!(Error::from_os_status(-1500), Err(Error::Unspecified));
    assert_eq!(Error::from_os_status(-50), Err(Error::Unknown(-50)));
    assert_eq!(Error::from_os_status(1), Err(Error::Unknown(1)));
}

#[test]
fn a_float_callback_gets_1024_samples_and_the_engine_gets_0() {
    let mut seen: Vec<(usize, usize, u32, u32, u64)> = Vec::new();
    let mut wrapper = InputProcFnWrapper::new(|args: Args<Interleaved<u32>, u64>| {
        seen.push((
            args.buffer.data.len(),
            args.num_frames,
            args.bus_number,
            args.flags.bits(),
            args.time_stamp,
        ));
        Ok(())
    });
    let mut samples: Vec<u32> = vec![0; 1024];
    let mut list = [AudioBuffer { number_channels: 2, data_byte_size: 4096, data: &mut samples[..] }];
    let status: i32 = input_proc(&mut wrapper, PRE_RENDER, 77u64, 3, 512, &mut list);
    assert_eq!(status, 0);
    drop(wrapper);
    assert_eq!(seen, vec![(1024usize, 512usize, 3u32, PRE_RENDER, 77u64)]);
}

#[test]
fn a_failing_callback_gives_the_unspecified_error() {
    let mut wrapper = InputProcFnWrapper::new(|_args: Args<Interleaved<i16>, ()>| Err(()));
    let mut samples: Vec<i16> = vec![5, 6, 7, 8];
    {
        let mut list = [AudioBuffer { number_channels: 2, data_byte_size: 8, data: &mut samples[..] }];
        let status: i32 = input_proc(&mut wrapper, 0, (), 0, 2, &mut list);
        assert_eq!(status, -1500);
    }
    assert_eq!(samples, vec![5i16, 6, 7, 8]);
}

#[test]
fn what_the_callback_writes_stays_whatever_it_returns() {
    let mut wrapper = InputProcFnWrapper::new(|args: Args<Interleaved<i16>, ()>| {
        args.buffer.data[1] = 40;
        if args.bus_number == 0 {
            Ok(())
        } else {
            Err(())
        }
    });
    for bus in [0u32, 1] {
        let mut samples: Vec<i16> = vec![1, 2, 3, 4];
        {
            let mut list = [AudioBuffer { number_channels: 1, data_byte_size: 8, data: &mut samples[..] }];
            let status: i32 = input_proc(&mut wrapper, 0, (), bus, 4, &mut list);
            assert_eq!(status, if bus == 0 { 0 } else { -1500 });
        }
        assert_eq!(samples, vec![1i16, 40, 3, 4]);
    }
}

#[test]
fn unnamed_action_flags_do_not_reach_the_callback() {
    let mut seen: Vec<u32> = Vec::new();
    let mut wrapper = InputProcFnWrapper::new(|args: Args<Custom, ()>| {
        seen.push(args.flags.bits());
        Ok(())
    });
    for word in [0u32, 1, 0xffff_fc03, OUTPUT_IS_SILENCE | 0x8000_0000, 0xffff_ffff] {
        let mut list: [AudioBuffer<u8>; 0] = [];
        assert_eq!(input_proc(&mut wrapper, word, (), 0, 0, &mut list), 0);
    }
    drop(wrapper);
    assert_eq!(seen, vec![0u32, 0, 0, OUTPUT_IS_SILENCE, 0x3fc]);
}

#[test]
fn a_callback_keeps_its_state_between_calls() {
    let mut calls: u32 = 0;
    let mut wrapper = InputProcFnWrapper::new(|_args: Args<Custom, ()>| {
        calls += 1;
        if calls < 3 {
            Ok(())
        } else {
            Err(())
        }
    });
    let mut statuses: Vec<i32> = Vec::new();
    for _ in 0..4 {
        let mut list: [AudioBuffer<u8>; 0] = [];
        statuses.push(input_proc(&mut wrapper, 0, (), 0, 0, &mut list));
    }
    assert_eq!(statuses, vec![0, 0, -1500, -1500]);
}

#[test]
fn a_planar_callback_gets_every_channel() {
    let mut wrapper = InputProcFnWrapper::new(|mut args: Args<Planar<i32>, ()>| {
        let mut value: i32 = 1;
        let mut channels = args.buffer.data.channels_mut();
        while let Some(samples) = channels.next() {
            for sample in samples.iter_mut() {
                *sample = value;
            }
            value += 1;
        }
        if args.num_frames == 2 {
            Ok(())
        } else {
            Err(())
        }
    });
    let mut left: Vec<i32> = vec![0; 2];
    let mut right: Vec<i32> = vec![0; 2];
    {
        let mut list = [
            AudioBuffer { number_channels: 1, data_byte_size: 8, data: &mut left[..] },
            AudioBuffer { number_channels: 1, data_byte_size: 8, data: &mut right[..] },
        ];
        assert_eq!(input_proc(&mut wrapper, 0, (), 0, 2, &mut list), 0);
    }
    assert_eq!(left, vec![1, 1]);
    assert_eq!(right, vec![2, 2]);
}

#[test]
fn a_list_that_does_not_fit_is_not_shown_to_the_callback() {
    let mut calls: u32 = 0;
    let mut wrapper = InputProcFnWrapper::new(|_args: Args<Interleaved<i16>, ()>| {
        calls += 1;
        Ok(())
    });
    let mut samples: Vec<i16> = vec![1, 2, 3, 4];
    {
        let mut list = [AudioBuffer { number_channels: 2, data_byte_size: 8, data: &mut samples[..] }];
        assert_eq!(checked_input_proc(&mut wrapper, 0, (), 0, 3, &mut list), None);
    }
    {
        let mut list = [AudioBuffer { number_channels: 2, data_byte_size: 10, data: &mut samples[..] }];
        assert_eq!(checked_input_proc(&mut wrapper, 0, (), 0, 2, &mut list), None);
    }
    {
        let mut list: [AudioBuffer<i16>; 0] = [];
        assert_eq!(checked_input_proc(&mut wrapper, 0, (), 0, 0, &mut list), None);
    }
    {
        let mut list = [AudioBuffer { number_channels: 2, data_byte_size: 8, data: &mut samples[..] }];
        assert_eq!(checked_input_proc(&mut wrapper, 0, (), 0, 2, &mut list), Some(0));
    }
    drop(wrapper);
    assert_eq!(calls, 1);
    assert_eq!(samples, vec![1i16, 2, 3, 4]);
}

#[test]
fn a_checked_call_reports_the_callbacks_failure() {
    let mut wrapper = InputProcFnWrapper::new(|_args: Args<Interleaved<i8>, ()>| Err(()));
    let mut samples: Vec<i8> = vec![0; 6];
    let mut list = [AudioBuffer { number_channels: 3, data_byte_size: 6, data: &mut samples[..] }];
    assert_eq!(checked_input_proc(&mut wrapper, 0, (), 0, 2, &mut list), Some(-1500));
}

#[test]
fn args_are_put_together_from_the_call() {
    let mut samples: Vec<i16> = vec![0; 6];
    let mut list = [AudioBuffer { number_channels: 3, data_byte_size: 12, data: &mut samples[..] }];
    let args: Args<Interleaved<i16>, &str> =
        Args::from_input_proc(PRE_RENDER | 2, "now", 9, 2, &mut list);
    assert_eq!(args.buffer.data.len(), 6);
    assert_eq!(args.time_stamp, "now");
    assert_eq!(args.flags.bits(), PRE_RENDER);
    assert_eq!(args.bus_number, 9);
    assert_eq!(args.num_frames, 2);
}
